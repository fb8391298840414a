//! Tile economy for a grid-building game: tile states (floor, resource
//! deposit, farm, tower), the cost model that prices each conversion, and the
//! decision procedure that gates a conversion on available currency.
//!
//! The engine is a pure function of its inputs: the caller hands in a tile
//! state, a requested action and the currency balance, and receives back a
//! verdict — applied (with the new state and the currency delta), insufficient
//! funds (with the amount required), or not applicable.

pub mod config;
pub mod economy;
pub mod ledger;
pub mod notify;
pub mod tile;
pub mod worldgen;

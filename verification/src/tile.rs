//! Tile states and structure levels.
//!
//! A tile is in exactly one state at a time: bare floor, an unexploited
//! resource deposit, a farm built over a deposit, or a tower built on floor.
//! Farms and towers carry a level, always at least one; the level drives the
//! cost of the next in-place upgrade and, for towers, the periodic yield.

use vstd::prelude::*;

verus! {

/// The kind of natural resource a deposit or a farm produces.
#[derive(Clone, Copy, Debug, PartialEq, Eq, Structural)]
pub enum ResourceKind {
    Wood,
}

/// Upgrade tier of a farm. Farms use the additive cost shape: the next
/// level costs `value + 1`.
#[derive(Clone, Copy, Debug, PartialEq, Eq, Structural)]
pub struct FarmLevel {
    pub value: u64,
}

/// Upgrade tier of a tower. Towers use the linear cost shape: the next
/// level costs the level (or its successor, by configuration) times a
/// scaling constant.
#[derive(Clone, Copy, Debug, PartialEq, Eq, Structural)]
pub struct TowerLevel {
    pub value: u64,
}

/// The state of one tile. Exactly one variant is active per tile, and a
/// transition replaces the whole value atomically, never partially.
#[derive(Clone, Copy, Debug, PartialEq, Eq, Structural)]
#[allow(inconsistent_fields)]
pub enum TileState {
    /// Empty ground: no level, no yield. A tower may be built here.
    Floor,
    /// A naturally occurring resource marker, not yet exploited. A farm may
    /// be built here.
    ResourceDeposit { kind: ResourceKind },
    /// A producer built atop a resource deposit.
    Farm { level: FarmLevel, kind: ResourceKind },
    /// A structure that periodically yields currency in proportion to its
    /// level.
    Tower { level: TowerLevel },
}

impl TileState {
    /// Well-formedness: whichever variant carries a level, that level is at
    /// least one. There is no farm or tower at level zero.
    pub open spec fn wf(self) -> bool {
        match self {
            TileState::Farm { level, .. } => level.value >= 1,
            TileState::Tower { level } => level.value >= 1,
            _ => true,
        }
    }

    /// The level of the structure on this tile, or zero for tiles that
    /// carry none.
    pub fn structure_level(&self) -> (r: u64)
        ensures
            r == self.spec_structure_level(),
    {
        match self {
            TileState::Tower { level } => level.value,
            TileState::Farm { level, .. } => level.value,
            _ => 0,
        }
    }

    /// Spec-level counterpart of [`Self::structure_level`].
    pub open spec fn spec_structure_level(self) -> u64 {
        match self {
            TileState::Tower { level } => level.value,
            TileState::Farm { level, .. } => level.value,
            _ => 0,
        }
    }

    /// The farm's level, when this tile holds a farm.
    pub fn farm_level(&self) -> (r: Option<u64>)
        ensures
            match r {
                Some(v) => self matches TileState::Farm { level, .. } && level.value == v,
                None => !(self matches TileState::Farm { .. }),
            },
    {
        match self {
            TileState::Farm { level, .. } => Some(level.value),
            _ => None,
        }
    }

    /// The tower's level, when this tile holds a tower.
    pub fn tower_level(&self) -> (r: Option<u64>)
        ensures
            match r {
                Some(v) => self matches TileState::Tower { level } && level.value == v,
                None => !(self matches TileState::Tower { .. }),
            },
    {
        match self {
            TileState::Tower { level } => Some(level.value),
            _ => None,
        }
    }

    /// Whether this tile is bare floor.
    pub fn is_floor(&self) -> (r: bool)
        ensures
            r == (self matches TileState::Floor),
    {
        matches!(self, TileState::Floor)
    }

    /// Whether this tile holds a farm.
    pub fn is_farm(&self) -> (r: bool)
        ensures
            r == (self matches TileState::Farm { .. }),
    {
        matches!(self, TileState::Farm { .. })
    }

    /// Whether this tile holds a tower.
    pub fn is_tower(&self) -> (r: bool)
        ensures
            r == (self matches TileState::Tower { .. }),
    {
        matches!(self, TileState::Tower { .. })
    }
}

} // verus!

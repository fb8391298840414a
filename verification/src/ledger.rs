//! The currency ledger: the balance of wood spent on upgrades and earned by
//! tower yield.
//!
//! The balance is an explicitly passed, exclusively owned value. The two
//! writers — upgrade evaluation and periodic tower accrual — must be
//! serialized by the caller; each mutation here is a single atomic step on
//! an exclusively borrowed ledger, so no evaluation can observe a stale
//! balance within the library.

use vstd::prelude::*;

use crate::tile::TileState;

verus! {

/// The balance a fresh ledger starts with.
pub const STARTING_WOOD: u64 = 5;

/// Currency one tower yields per level, once per accrual tick.
pub const TOWER_YIELD_PER_LEVEL: u64 = 5;

/// Default accrual interval, in seconds. The caller owns the clock and
/// drives each tick; the ledger only requires that ticks and upgrade
/// evaluations are serialized on the same exclusively owned balance.
pub const TOWER_TICK_SECONDS: u64 = 2;

/// The mutable currency balance.
#[derive(Clone, Copy, Debug, PartialEq, Eq, Structural)]
pub struct Currency {
    pub wood: u64,
}

impl Default for Currency {
    /// A fresh ledger holds the starting balance.
    fn default() -> (c: Self)
        ensures
            c.wood == STARTING_WOOD,
    {
        Currency { wood: STARTING_WOOD }
    }
}

impl Currency {
    /// Adds `amount` to the balance.
    pub fn credit(&mut self, amount: u64)
        requires
            old(self).wood + amount <= u64::MAX,
        ensures
            final(self).wood == old(self).wood + amount,
    {
        self.wood = self.wood + amount;
    }

    /// Removes `amount` from the balance.
    pub fn debit(&mut self, amount: u64)
        requires
            amount <= old(self).wood,
        ensures
            final(self).wood == old(self).wood - amount,
    {
        self.wood = self.wood - amount;
    }
}

/// The currency one tile yields per accrual tick: towers yield per level,
/// every other tile yields nothing.
pub open spec fn spec_tile_yield(t: TileState) -> int {
    match t {
        TileState::Tower { level } => TOWER_YIELD_PER_LEVEL * level.value,
        _ => 0,
    }
}

/// The combined yield of a run of tiles over one accrual tick.
pub open spec fn spec_total_yield(tiles: Seq<TileState>) -> int
    decreases tiles.len(),
{
    if tiles.len() == 0 {
        0
    } else {
        spec_total_yield(tiles.drop_last()) + spec_tile_yield(tiles.last())
    }
}

/// No tile yields a negative amount, so neither does any run of tiles.
pub proof fn lemma_total_yield_nonneg(tiles: Seq<TileState>)
    ensures
        0 <= spec_total_yield(tiles),
    decreases tiles.len(),
{
    if tiles.len() > 0 {
        lemma_total_yield_nonneg(tiles.drop_last());
    }
}

/// A prefix of the tiles never yields more than all of them.
pub proof fn lemma_total_yield_take_le(tiles: Seq<TileState>, i: int)
    requires
        0 <= i <= tiles.len(),
    ensures
        spec_total_yield(tiles.take(i)) <= spec_total_yield(tiles),
    decreases tiles.len() - i,
{
    if i == tiles.len() {
        assert(tiles.take(i) =~= tiles);
    } else {
        assert(tiles.take(i + 1).drop_last() =~= tiles.take(i));
        assert(tiles.take(i + 1).last() == tiles[i]);
        lemma_total_yield_take_le(tiles, i + 1);
    }
}

/// One accrual tick: credits the ledger with the yield of every tower in
/// the run of tiles, per-level.
pub fn collect_towers(tiles: &Vec<TileState>, ledger: &mut Currency)
    requires
        old(ledger).wood + spec_total_yield(tiles@) <= u64::MAX,
    ensures
        final(ledger).wood == old(ledger).wood + spec_total_yield(tiles@),
{
    let n = tiles.len();
    let mut idx: usize = 0;
    while idx < n
        invariant
            n == tiles@.len(),
            idx <= n,
            ledger.wood == old(ledger).wood + spec_total_yield(tiles@.take(idx as int)),
            old(ledger).wood + spec_total_yield(tiles@) <= u64::MAX,
        decreases n - idx,
    {
        proof {
            assert(tiles@.take(idx as int + 1).drop_last() =~= tiles@.take(idx as int));
            assert(tiles@.take(idx as int + 1).last() == tiles@[idx as int]);
            lemma_total_yield_take_le(tiles@, idx as int + 1);
            lemma_total_yield_nonneg(tiles@.take(idx as int));
        }
        let t = tiles[idx];
        match t {
            TileState::Tower { level } => {
                let amount: u64 = TOWER_YIELD_PER_LEVEL * level.value;
                ledger.credit(amount);
            },
            _ => {},
        }
        idx = idx + 1;
    }
    proof {
        assert(tiles@.take(n as int) =~= tiles@);
    }
}

} // verus!

//! Static world placement: which tiles start as resource deposits.
//!
//! The world is a square grid. A tile starts as a wood deposit when it lies
//! strictly within a fixed radius of one of two deposit centers, and as bare
//! floor everywhere else. Nearness is decided on squared distances, so the
//! rule is exact integer arithmetic throughout.

use vstd::prelude::*;
use vstd::arithmetic::div_mod::{
    lemma_fundamental_div_mod_converse_div, lemma_fundamental_div_mod_converse_mod,
};

use crate::tile::{ResourceKind, TileState};

verus! {

/// Side length of the square world grid, in tiles.
pub const WORLD_SIZE: usize = 20;

/// Grid x of the first deposit center.
pub const DEPOSIT_A_X: u64 = 2;

/// Grid z of the first deposit center.
pub const DEPOSIT_A_Z: u64 = 2;

/// Grid x of the second deposit center.
pub const DEPOSIT_B_X: u64 = 8;

/// Grid z of the second deposit center.
pub const DEPOSIT_B_Z: u64 = 8;

/// Tiles strictly nearer than this to a center start as deposits.
pub const DEPOSIT_RADIUS: u64 = 2;

/// Whether `(x, z)` lies strictly within `radius` of `(cx, cz)`, by squared
/// distance.
pub open spec fn spec_within(x: int, z: int, cx: int, cz: int, radius: int) -> bool {
    (x - cx) * (x - cx) + (z - cz) * (z - cz) < radius * radius
}

/// The state a tile at `(x, z)` starts in: a wood deposit near one of the
/// two deposit centers, bare floor everywhere else.
pub open spec fn spec_initial_tile(x: int, z: int) -> TileState {
    if spec_within(x, z, DEPOSIT_A_X as int, DEPOSIT_A_Z as int, DEPOSIT_RADIUS as int)
        || spec_within(x, z, DEPOSIT_B_X as int, DEPOSIT_B_Z as int, DEPOSIT_RADIUS as int) {
        TileState::ResourceDeposit { kind: ResourceKind::Wood }
    } else {
        TileState::Floor
    }
}

/// Decides nearness to one center in machine integers.
fn within(x: usize, z: usize, cx: u64, cz: u64, radius: u64) -> (r: bool)
    requires
        x <= 1000,
        z <= 1000,
        cx <= 1000,
        cz <= 1000,
        radius <= 1000,
    ensures
        r == spec_within(x as int, z as int, cx as int, cz as int, radius as int),
{
    let dx: i64 = x as i64 - cx as i64;
    let dz: i64 = z as i64 - cz as i64;
    proof {
        assert((dx as int) * (dx as int) <= 1000000) by (nonlinear_arith)
            requires
                -1000 <= dx <= 1000,
        ;
        assert(0 <= (dx as int) * (dx as int)) by (nonlinear_arith);
        assert((dz as int) * (dz as int) <= 1000000) by (nonlinear_arith)
            requires
                -1000 <= dz <= 1000,
        ;
        assert(0 <= (dz as int) * (dz as int)) by (nonlinear_arith);
        assert((radius as int) * (radius as int) <= 1000000) by (nonlinear_arith)
            requires
                radius <= 1000,
        ;
    }
    dx * dx + dz * dz < (radius as i64) * (radius as i64)
}

/// The state a tile at `(x, z)` starts in, as executable code.
pub fn initial_tile(x: usize, z: usize) -> (r: TileState)
    requires
        x < WORLD_SIZE,
        z < WORLD_SIZE,
    ensures
        r == spec_initial_tile(x as int, z as int),
        r.wf(),
{
    if within(x, z, DEPOSIT_A_X, DEPOSIT_A_Z, DEPOSIT_RADIUS) || within(
        x,
        z,
        DEPOSIT_B_X,
        DEPOSIT_B_Z,
        DEPOSIT_RADIUS,
    ) {
        TileState::ResourceDeposit { kind: ResourceKind::Wood }
    } else {
        TileState::Floor
    }
}

/// Lays out the whole starting world, row by row: the tile for grid
/// position `(x, z)` sits at index `x * WORLD_SIZE + z`.
pub fn generate_world() -> (r: Vec<TileState>)
    ensures
        r@.len() == WORLD_SIZE * WORLD_SIZE,
        forall|k: int|
            0 <= k < r@.len() ==> r@[k] == spec_initial_tile(
                k / (WORLD_SIZE as int),
                k % (WORLD_SIZE as int),
            ),
        forall|k: int| 0 <= k < r@.len() ==> r@[k].wf(),
{
    let mut tiles: Vec<TileState> = Vec::new();
    let mut x: usize = 0;
    while x < WORLD_SIZE
        invariant
            x <= WORLD_SIZE,
            tiles@.len() == x * WORLD_SIZE,
            forall|k: int|
                0 <= k < tiles@.len() ==> tiles@[k] == spec_initial_tile(
                    k / (WORLD_SIZE as int),
                    k % (WORLD_SIZE as int),
                ),
            forall|k: int| 0 <= k < tiles@.len() ==> tiles@[k].wf(),
        decreases WORLD_SIZE - x,
    {
        let mut z: usize = 0;
        while z < WORLD_SIZE
            invariant
                x < WORLD_SIZE,
                z <= WORLD_SIZE,
                tiles@.len() == x * WORLD_SIZE + z,
                forall|k: int|
                    0 <= k < tiles@.len() ==> tiles@[k] == spec_initial_tile(
                        k / (WORLD_SIZE as int),
                        k % (WORLD_SIZE as int),
                    ),
                forall|k: int| 0 <= k < tiles@.len() ==> tiles@[k].wf(),
            decreases WORLD_SIZE - z,
        {
            let t = initial_tile(x, z);
            proof {
                lemma_fundamental_div_mod_converse_div(
                    (x * WORLD_SIZE + z) as int,
                    WORLD_SIZE as int,
                    x as int,
                    z as int,
                );
                lemma_fundamental_div_mod_converse_mod(
                    (x * WORLD_SIZE + z) as int,
                    WORLD_SIZE as int,
                    x as int,
                    z as int,
                );
            }
            tiles.push(t);
            z = z + 1;
        }
        x = x + 1;
    }
    tiles
}

} // verus!

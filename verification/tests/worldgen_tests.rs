use tile_economy::tile::{ResourceKind, TileState};
use tile_economy::worldgen::{generate_world, initial_tile, WORLD_SIZE};

fn deposit() -> TileState {
    TileState::ResourceDeposit { kind: ResourceKind::Wood }
}

#[test]
fn tiles_at_the_centers_are_deposits() {
    assert_eq!(initial_tile(2, 2), deposit());
    assert_eq!(initial_tile(8, 8), deposit());
}

#[test]
fn tiles_just_inside_the_radius_are_deposits() {
    // Squared distance 1 and 2 are both under the squared radius of 4.
    assert_eq!(initial_tile(3, 2), deposit());
    assert_eq!(initial_tile(2, 1), deposit());
    assert_eq!(initial_tile(1, 1), deposit());
    assert_eq!(initial_tile(9, 9), deposit());
}

#[test]
fn tiles_on_or_past_the_radius_are_floor() {
    // Squared distance exactly 4 is not strictly within the radius.
    assert_eq!(initial_tile(4, 2), TileState::Floor);
    assert_eq!(initial_tile(2, 4), TileState::Floor);
    assert_eq!(initial_tile(0, 0), TileState::Floor);
    assert_eq!(initial_tile(19, 19), TileState::Floor);
}

#[test]
fn world_has_one_tile_per_grid_position() {
    let world = generate_world();
    assert_eq!(world.len(), WORLD_SIZE * WORLD_SIZE);
}

#[test]
fn world_rows_match_the_placement_rule() {
    let world = generate_world();
    for x in 0..WORLD_SIZE {
        for z in 0..WORLD_SIZE {
            assert_eq!(world[x * WORLD_SIZE + z], initial_tile(x, z));
        }
    }
}

#[test]
fn world_holds_nine_deposits_per_center() {
    let world = generate_world();
    let deposits = world.iter().filter(|t| **t == deposit()).count();
    // Each center covers the three-by-three block around it.
    assert_eq!(deposits, 18);
}

use tile_economy::tile::{FarmLevel, ResourceKind, TileState, TowerLevel};

fn tower(level: u64) -> TileState {
    TileState::Tower { level: TowerLevel { value: level } }
}

fn farm(level: u64) -> TileState {
    TileState::Farm { level: FarmLevel { value: level }, kind: ResourceKind::Wood }
}

#[test]
fn variant_predicates_tell_the_states_apart() {
    assert!(TileState::Floor.is_floor());
    assert!(!TileState::Floor.is_farm());
    assert!(!TileState::Floor.is_tower());
    assert!(farm(1).is_farm());
    assert!(!farm(1).is_tower());
    assert!(tower(1).is_tower());
    assert!(!tower(1).is_floor());
}

#[test]
fn structure_level_reads_the_active_level() {
    assert_eq!(TileState::Floor.structure_level(), 0);
    assert_eq!(TileState::ResourceDeposit { kind: ResourceKind::Wood }.structure_level(), 0);
    assert_eq!(farm(4).structure_level(), 4);
    assert_eq!(tower(7).structure_level(), 7);
}

#[test]
fn level_accessors_answer_only_for_their_variant() {
    assert_eq!(tower(3).tower_level(), Some(3));
    assert_eq!(tower(3).farm_level(), None);
    assert_eq!(farm(2).farm_level(), Some(2));
    assert_eq!(farm(2).tower_level(), None);
    assert_eq!(TileState::Floor.tower_level(), None);
    assert_eq!(TileState::Floor.farm_level(), None);
}

#[test]
fn levels_step_by_one() {
    let mut f = FarmLevel { value: 1 };
    f.next();
    assert_eq!(f.value, 2);
    let mut t = TowerLevel { value: 4 };
    t.next();
    assert_eq!(t.value, 5);
}

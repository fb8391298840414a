use tile_economy::ledger::{
    collect_towers, Currency, STARTING_WOOD, TOWER_TICK_SECONDS, TOWER_YIELD_PER_LEVEL,
};
use tile_economy::notify::NotifyQueue;
use tile_economy::tile::{FarmLevel, ResourceKind, TileState, TowerLevel};

fn tower(level: u64) -> TileState {
    TileState::Tower { level: TowerLevel { value: level } }
}

#[test]
fn fresh_ledger_holds_the_starting_balance() {
    let ledger = Currency::default();
    assert_eq!(ledger.wood, STARTING_WOOD);
    assert_eq!(ledger.wood, 5);
}

#[test]
fn accrual_constants_match_the_balance_sheet() {
    assert_eq!(TOWER_YIELD_PER_LEVEL, 5);
    assert_eq!(TOWER_TICK_SECONDS, 2);
}

#[test]
fn credit_and_debit_move_the_balance() {
    let mut ledger = Currency { wood: 10 };
    ledger.credit(7);
    assert_eq!(ledger.wood, 17);
    ledger.debit(12);
    assert_eq!(ledger.wood, 5);
}

#[test]
fn accrual_credits_five_per_tower_level() {
    let tiles = vec![
        tower(1),
        TileState::Floor,
        tower(3),
        TileState::Farm { level: FarmLevel { value: 2 }, kind: ResourceKind::Wood },
        TileState::ResourceDeposit { kind: ResourceKind::Wood },
    ];
    let mut ledger = Currency { wood: 2 };
    collect_towers(&tiles, &mut ledger);
    // Only the towers yield: 5 * 1 + 5 * 3.
    assert_eq!(ledger.wood, 22);
}

#[test]
fn accrual_over_no_tiles_changes_nothing() {
    let tiles: Vec<TileState> = Vec::new();
    let mut ledger = Currency { wood: 9 };
    collect_towers(&tiles, &mut ledger);
    assert_eq!(ledger.wood, 9);
}

#[test]
fn accrual_ignores_everything_but_towers() {
    let tiles = vec![
        TileState::Floor,
        TileState::ResourceDeposit { kind: ResourceKind::Wood },
        TileState::Farm { level: FarmLevel { value: 9 }, kind: ResourceKind::Wood },
    ];
    let mut ledger = Currency { wood: 0 };
    collect_towers(&tiles, &mut ledger);
    assert_eq!(ledger.wood, 0);
}

#[test]
fn notify_queue_hands_back_the_most_recent_first() {
    let mut q = NotifyQueue::default();
    q.push(String::from("first"));
    q.push(String::from("second"));
    assert_eq!(q.next(), Some(String::from("second")));
    assert_eq!(q.next(), Some(String::from("first")));
    assert_eq!(q.next(), None);
}

#[test]
fn empty_notify_queue_has_nothing_to_say() {
    let mut q = NotifyQueue::default();
    assert_eq!(q.next(), None);
}

use tile_economy::config::{ConversionAccounting, CostConfig, TowerCostShape};
use tile_economy::economy::{
    classify_trigger, evaluate_upgrade, process_trigger, upgrade_cost, UpgradeAction,
    UpgradeResult,
};
use tile_economy::ledger::Currency;
use tile_economy::tile::{FarmLevel, ResourceKind, TileState, TowerLevel};

fn tower(level: u64) -> TileState {
    TileState::Tower { level: TowerLevel { value: level } }
}

fn farm(level: u64) -> TileState {
    TileState::Farm { level: FarmLevel { value: level }, kind: ResourceKind::Wood }
}

fn deposit() -> TileState {
    TileState::ResourceDeposit { kind: ResourceKind::Wood }
}

#[test]
fn floor_build_tower_applies() {
    let cfg = CostConfig::default();
    let r = evaluate_upgrade(TileState::Floor, UpgradeAction::BuildTower, 10, cfg);
    assert_eq!(r, UpgradeResult::Applied { new_state: tower(1), currency_delta: -5 });
}

#[test]
fn floor_build_tower_exact_funds() {
    let cfg = CostConfig::default();
    let r = evaluate_upgrade(TileState::Floor, UpgradeAction::BuildTower, 5, cfg);
    assert_eq!(r, UpgradeResult::Applied { new_state: tower(1), currency_delta: -5 });
}

#[test]
fn floor_build_tower_insufficient() {
    let cfg = CostConfig::default();
    let r = evaluate_upgrade(TileState::Floor, UpgradeAction::BuildTower, 4, cfg);
    assert_eq!(r, UpgradeResult::InsufficientFunds { required: 5 });
}

#[test]
fn deposit_build_farm_applies() {
    let cfg = CostConfig::default();
    let r = evaluate_upgrade(deposit(), UpgradeAction::BuildFarm, 5, cfg);
    assert_eq!(r, UpgradeResult::Applied { new_state: farm(1), currency_delta: -5 });
}

#[test]
fn deposit_build_farm_insufficient() {
    let cfg = CostConfig::default();
    let r = evaluate_upgrade(deposit(), UpgradeAction::BuildFarm, 0, cfg);
    assert_eq!(r, UpgradeResult::InsufficientFunds { required: 5 });
}

#[test]
fn floor_build_farm_never_applicable() {
    let cfg = CostConfig::default();
    for funds in [0, 1, 5, 1_000_000, u64::MAX] {
        let r = evaluate_upgrade(TileState::Floor, UpgradeAction::BuildFarm, funds, cfg);
        assert_eq!(r, UpgradeResult::NotApplicable);
    }
}

#[test]
fn deposit_build_tower_never_applicable() {
    let cfg = CostConfig::default();
    for funds in [0, 5, u64::MAX] {
        let r = evaluate_upgrade(deposit(), UpgradeAction::BuildTower, funds, cfg);
        assert_eq!(r, UpgradeResult::NotApplicable);
    }
}

#[test]
fn tower_upgrade_cost_increases_with_level() {
    let cfg = CostConfig::default();
    let mut previous: u64 = 0;
    for level in 1u64..10 {
        let c = upgrade_cost(tower(level), UpgradeAction::BuildTower, cfg).unwrap();
        assert!(c > previous);
        previous = c;
    }
}

#[test]
fn farm_upgrade_cost_increases_with_level() {
    let cfg = CostConfig::default();
    let mut previous: u64 = 0;
    for level in 1u64..10 {
        let c = upgrade_cost(farm(level), UpgradeAction::BuildFarm, cfg).unwrap();
        assert!(c > previous);
        previous = c;
    }
}

#[test]
fn tower_in_place_cost_successor_shape() {
    // Default shape: the upgrade away from level n costs (n + 1) * 5.
    let cfg = CostConfig::default();
    assert_eq!(upgrade_cost(tower(1), UpgradeAction::BuildTower, cfg), Some(10));
    assert_eq!(upgrade_cost(tower(3), UpgradeAction::BuildTower, cfg), Some(20));
}

#[test]
fn farm_in_place_cost_additive_shape() {
    let cfg = CostConfig::default();
    assert_eq!(upgrade_cost(farm(1), UpgradeAction::BuildFarm, cfg), Some(2));
    assert_eq!(upgrade_cost(farm(4), UpgradeAction::BuildFarm, cfg), Some(5));
}

#[test]
fn farm_in_place_upgrade_applies() {
    let cfg = CostConfig::default();
    let r = evaluate_upgrade(farm(2), UpgradeAction::BuildFarm, 3, cfg);
    assert_eq!(r, UpgradeResult::Applied { new_state: farm(3), currency_delta: -3 });
}

#[test]
fn inapplicable_leaves_tile_untouched() {
    let cfg = CostConfig::default();
    let mut t = TileState::Floor;
    let r = t.try_upgrade(UpgradeAction::BuildFarm, u64::MAX, cfg);
    assert_eq!(r, None);
    assert_eq!(t, TileState::Floor);
}

#[test]
fn insufficient_funds_leaves_tile_untouched() {
    let cfg = CostConfig::default();
    let mut t = tower(2);
    let r = t.try_upgrade(UpgradeAction::BuildTower, 1, cfg);
    assert_eq!(r, None);
    assert_eq!(t, tower(2));
}

#[test]
fn try_upgrade_returns_the_debit() {
    let cfg = CostConfig::default();
    let mut t = TileState::Floor;
    let r = t.try_upgrade(UpgradeAction::BuildTower, 12, cfg);
    assert_eq!(r, Some(5));
    assert_eq!(t, tower(1));
}

#[test]
fn applied_delta_matches_cost_model() {
    let cfg = CostConfig::default();
    for (state, action) in [
        (TileState::Floor, UpgradeAction::BuildTower),
        (deposit(), UpgradeAction::BuildFarm),
        (tower(2), UpgradeAction::BuildTower),
        (farm(2), UpgradeAction::BuildFarm),
    ] {
        let cost = upgrade_cost(state, action, cfg).unwrap();
        let r = evaluate_upgrade(state, action, u64::MAX, cfg);
        match r {
            UpgradeResult::Applied { currency_delta, .. } => {
                assert!(currency_delta < 0);
                assert_eq!((-currency_delta) as u64, cost);
            }
            _ => panic!("expected the upgrade to apply"),
        }
    }
}

#[test]
fn scenario_floor_then_scaled_level_tower() {
    // Flat tower price five, then the level-times-five shape: ten funds
    // build the tower, five more exactly buy the next level.
    let cfg = CostConfig {
        cost_scaling: 5,
        tile_cost_scaling: 5,
        farm_cost_scaling: 5,
        modify_penalty_num: 3,
        modify_penalty_den: 2,
        tower_shape: TowerCostShape::ScaledLevel,
        conversion: ConversionAccounting::FullPenalty,
    };
    let r1 = evaluate_upgrade(TileState::Floor, UpgradeAction::BuildTower, 10, cfg);
    assert_eq!(r1, UpgradeResult::Applied { new_state: tower(1), currency_delta: -5 });
    let r2 = evaluate_upgrade(tower(1), UpgradeAction::BuildTower, 5, cfg);
    assert_eq!(r2, UpgradeResult::Applied { new_state: tower(2), currency_delta: -5 });
}

#[test]
fn scenario_tower_to_farm_penalty() {
    // Farm base five at penalty three halves rounds up to eight; seven in
    // hand is not enough.
    let cfg = CostConfig::default();
    let r = evaluate_upgrade(tower(3), UpgradeAction::BuildFarm, 7, cfg);
    assert_eq!(r, UpgradeResult::InsufficientFunds { required: 8 });
}

#[test]
fn tower_to_farm_conversion_applies() {
    let cfg = CostConfig::default();
    let r = evaluate_upgrade(tower(3), UpgradeAction::BuildFarm, 8, cfg);
    assert_eq!(r, UpgradeResult::Applied { new_state: farm(1), currency_delta: -8 });
}

#[test]
fn farm_to_tower_conversion_applies() {
    let cfg = CostConfig::default();
    let r = evaluate_upgrade(farm(2), UpgradeAction::BuildTower, 20, cfg);
    assert_eq!(r, UpgradeResult::Applied { new_state: tower(1), currency_delta: -8 });
}

#[test]
fn half_refund_conversion_charges_less() {
    let cfg = CostConfig {
        conversion: ConversionAccounting::HalfRefund,
        ..CostConfig::default()
    };
    // Full penalty cost eight still gates affordability, but half of it
    // (rounded down) comes back: the net charge is four.
    let r_short = evaluate_upgrade(tower(3), UpgradeAction::BuildFarm, 7, cfg);
    assert_eq!(r_short, UpgradeResult::InsufficientFunds { required: 8 });
    let r = evaluate_upgrade(tower(3), UpgradeAction::BuildFarm, 8, cfg);
    assert_eq!(r, UpgradeResult::Applied { new_state: farm(1), currency_delta: -4 });
}

#[test]
fn half_refund_does_not_touch_in_place_upgrades() {
    let cfg = CostConfig {
        conversion: ConversionAccounting::HalfRefund,
        ..CostConfig::default()
    };
    let r = evaluate_upgrade(tower(1), UpgradeAction::BuildTower, 10, cfg);
    assert_eq!(r, UpgradeResult::Applied { new_state: tower(2), currency_delta: -10 });
}

#[test]
fn classify_recognizes_the_two_keys() {
    assert_eq!(classify_trigger('f'), Some(UpgradeAction::BuildFarm));
    assert_eq!(classify_trigger('u'), Some(UpgradeAction::BuildTower));
}

#[test]
fn classify_ignores_everything_else() {
    for key in ['a', 'F', 'U', ' ', '7', '\n'] {
        assert_eq!(classify_trigger(key), None);
    }
}

#[test]
fn process_trigger_commits_state_and_debit_together() {
    let cfg = CostConfig::default();
    let mut state = TileState::Floor;
    let mut ledger = Currency { wood: 12 };
    let r = process_trigger(&mut state, &mut ledger, 'u', cfg);
    assert_eq!(r, Some(UpgradeResult::Applied { new_state: tower(1), currency_delta: -5 }));
    assert_eq!(state, tower(1));
    assert_eq!(ledger.wood, 7);
}

#[test]
fn process_trigger_ignores_unknown_keys() {
    let cfg = CostConfig::default();
    let mut state = deposit();
    let mut ledger = Currency { wood: 9 };
    let r = process_trigger(&mut state, &mut ledger, 'x', cfg);
    assert_eq!(r, None);
    assert_eq!(state, deposit());
    assert_eq!(ledger.wood, 9);
}

#[test]
fn process_trigger_reports_shortfall_without_spending() {
    let cfg = CostConfig::default();
    let mut state = TileState::Floor;
    let mut ledger = Currency { wood: 2 };
    let r = process_trigger(&mut state, &mut ledger, 'u', cfg);
    assert_eq!(r, Some(UpgradeResult::InsufficientFunds { required: 5 }));
    assert_eq!(state, TileState::Floor);
    assert_eq!(ledger.wood, 2);
}

#[test]
fn process_trigger_reports_inapplicable_without_spending() {
    let cfg = CostConfig::default();
    let mut state = TileState::Floor;
    let mut ledger = Currency { wood: 50 };
    let r = process_trigger(&mut state, &mut ledger, 'f', cfg);
    assert_eq!(r, Some(UpgradeResult::NotApplicable));
    assert_eq!(state, TileState::Floor);
    assert_eq!(ledger.wood, 50);
}

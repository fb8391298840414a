//! The upgrade decision procedure and its cost model.
//!
//! `evaluate_upgrade` is the single entry point: given a tile state, a
//! requested action and the available currency, it answers with exactly one
//! of three outcomes — not applicable, insufficient funds (with the amount
//! required), or applied (with the new tile state and the currency delta).
//! It is a pure function of its three inputs and the configuration; the
//! caller commits the returned state and delta together.

use vstd::prelude::*;
use vstd::arithmetic::div_mod::{
    lemma_div_is_ordered, lemma_div_is_strictly_smaller, lemma_div_nonincreasing,
    lemma_div_pos_is_pos,
};

use crate::config::{ConversionAccounting, CostConfig, TowerCostShape};
use crate::ledger::Currency;
use crate::tile::{FarmLevel, ResourceKind, TileState, TowerLevel};

verus! {

/// The player's intended transformation of a tile.
#[derive(Clone, Copy, Debug, PartialEq, Eq, Structural)]
pub enum UpgradeAction {
    /// Build a farm on a resource deposit, level an existing farm up, or
    /// convert a tower into a farm.
    BuildFarm,
    /// Build a tower on bare floor, level an existing tower up, or convert
    /// a farm into a tower.
    BuildTower,
}

/// The outcome of one upgrade evaluation. The taxonomy is closed and total:
/// every call produces exactly one of these, never a fault.
#[derive(Clone, Copy, Debug, PartialEq, Eq, Structural)]
pub enum UpgradeResult {
    /// The action applies and is affordable. The caller must commit
    /// `new_state` and add `currency_delta` (always negative) to the
    /// balance, atomically together.
    Applied { new_state: TileState, currency_delta: i64 },
    /// The action applies in principle but the balance is below `required`.
    /// No state change.
    InsufficientFunds { required: u64 },
    /// The action does not apply to the tile's current variant. No state
    /// change.
    NotApplicable,
}

/// Maps a raw key trigger to an action. Only a small closed set of keys is
/// recognized; everything else yields `None` and must short-circuit the
/// caller before `evaluate_upgrade` is invoked.
pub open spec fn spec_classify(key: char) -> Option<UpgradeAction> {
    if key == 'f' {
        Some(UpgradeAction::BuildFarm)
    } else if key == 'u' {
        Some(UpgradeAction::BuildTower)
    } else {
        None
    }
}

/// Total mapping from a raw key trigger to the action it requests.
/// Unrecognized keys map to `None` and are ignored by callers.
pub fn classify_trigger(key: char) -> (r: Option<UpgradeAction>)
    ensures
        r == spec_classify(key),
{
    match key {
        'f' => Some(UpgradeAction::BuildFarm),
        'u' => Some(UpgradeAction::BuildTower),
        _ => None,
    }
}

/// The in-place tower upgrade cost for a given level: linear in the level,
/// with the exact shape fixed by configuration.
pub open spec fn spec_level_cost(level: int, scaling: int, shape: TowerCostShape) -> int {
    match shape {
        TowerCostShape::ScaledLevel => level * scaling,
        TowerCostShape::ScaledSuccessor => (level + 1) * scaling,
    }
}

/// `base` multiplied by the penalty factor `num / den`, rounded up to the
/// nearest integer: the price of a cross-conversion.
pub open spec fn spec_ceil_scaled(base: int, num: int, den: int) -> int {
    (base * num + den - 1) / den
}

/// Whether the pair converts an existing structure into the other kind:
/// a tower into a farm, or a farm into a tower.
pub open spec fn is_cross_conversion(state: TileState, action: UpgradeAction) -> bool {
    ||| (state matches TileState::Tower { .. }) && action == UpgradeAction::BuildFarm
    ||| (state matches TileState::Farm { .. }) && action == UpgradeAction::BuildTower
}

/// Whether the action applies at all to the tile's current variant. This
/// does not depend on the configuration: only a farm request on bare floor
/// and a tower request on an unexploited deposit are ruled out.
pub open spec fn applicable(state: TileState, action: UpgradeAction) -> bool {
    match (state, action) {
        (TileState::Floor, UpgradeAction::BuildFarm) => false,
        (TileState::ResourceDeposit { .. }, UpgradeAction::BuildTower) => false,
        _ => true,
    }
}

/// The cost model: the currency amount the pair `(state, action)` costs, or
/// `None` when the action is not applicable to the state.
pub open spec fn spec_cost(state: TileState, action: UpgradeAction, cfg: CostConfig) -> Option<
    int,
> {
    match (state, action) {
        (TileState::Floor, UpgradeAction::BuildTower) => Some(cfg.tile_cost_scaling as int),
        (TileState::ResourceDeposit { .. }, UpgradeAction::BuildFarm) => Some(
            cfg.farm_cost_scaling as int,
        ),
        (TileState::Tower { level }, UpgradeAction::BuildTower) => Some(
            spec_level_cost(level.value as int, cfg.cost_scaling as int, cfg.tower_shape),
        ),
        (TileState::Farm { level, .. }, UpgradeAction::BuildFarm) => Some(level.value + 1),
        (TileState::Tower { .. }, UpgradeAction::BuildFarm) => Some(
            spec_ceil_scaled(
                cfg.farm_cost_scaling as int,
                cfg.modify_penalty_num as int,
                cfg.modify_penalty_den as int,
            ),
        ),
        (TileState::Farm { .. }, UpgradeAction::BuildTower) => Some(
            spec_ceil_scaled(
                cfg.tile_cost_scaling as int,
                cfg.modify_penalty_num as int,
                cfg.modify_penalty_den as int,
            ),
        ),
        (TileState::Floor, UpgradeAction::BuildFarm) => None,
        (TileState::ResourceDeposit { .. }, UpgradeAction::BuildTower) => None,
    }
}

/// The transition table: the tile state that replaces `state` when the
/// action is applied. Building starts the new structure at level one;
/// an in-place upgrade raises the level by one; a cross-conversion
/// demolishes the old structure and starts the new one at level one
/// (a converted tower becomes a wood farm, the one resource kind).
pub open spec fn spec_next_state(state: TileState, action: UpgradeAction) -> TileState {
    match (state, action) {
        (TileState::Floor, UpgradeAction::BuildTower) => TileState::Tower {
            level: TowerLevel { value: 1 },
        },
        (TileState::ResourceDeposit { kind }, UpgradeAction::BuildFarm) => TileState::Farm {
            level: FarmLevel { value: 1 },
            kind,
        },
        (TileState::Tower { level }, UpgradeAction::BuildTower) => TileState::Tower {
            level: TowerLevel { value: (level.value + 1) as u64 },
        },
        (TileState::Farm { level, kind }, UpgradeAction::BuildFarm) => TileState::Farm {
            level: FarmLevel { value: (level.value + 1) as u64 },
            kind,
        },
        (TileState::Tower { .. }, UpgradeAction::BuildFarm) => TileState::Farm {
            level: FarmLevel { value: 1 },
            kind: ResourceKind::Wood,
        },
        (TileState::Farm { .. }, UpgradeAction::BuildTower) => TileState::Tower {
            level: TowerLevel { value: 1 },
        },
        _ => state,
    }
}

/// The currency delta of a successful application: the negative of the
/// cost, except that under the half-refund accounting a cross-conversion
/// refunds half the penalty cost (rounded down) as salvage.
pub open spec fn spec_delta(state: TileState, action: UpgradeAction, cfg: CostConfig) -> int
    recommends
        spec_cost(state, action, cfg) is Some,
{
    let c = spec_cost(state, action, cfg)->Some_0;
    if is_cross_conversion(state, action) && cfg.conversion == ConversionAccounting::HalfRefund {
        -(c - c / 2)
    } else {
        -c
    }
}

/// Machine-range side condition on the one cost that grows with a level:
/// the in-place upgrade cost (and the raised level itself) must fit. Every
/// other cost is bounded by the configuration's own well-formedness.
pub open spec fn cost_in_range(state: TileState, action: UpgradeAction, cfg: CostConfig) -> bool {
    match (state, action) {
        (TileState::Tower { level }, UpgradeAction::BuildTower) => level.value < u64::MAX
            && spec_level_cost(level.value as int, cfg.cost_scaling as int, cfg.tower_shape)
            <= i64::MAX,
        (TileState::Farm { level, .. }, UpgradeAction::BuildFarm) => level.value + 1 <= i64::MAX,
        _ => true,
    }
}

/// The full decision procedure at the specification level: the value
/// `evaluate_upgrade` is proved to return.
pub open spec fn spec_evaluate(
    state: TileState,
    action: UpgradeAction,
    funds: int,
    cfg: CostConfig,
) -> UpgradeResult {
    match spec_cost(state, action, cfg) {
        None => UpgradeResult::NotApplicable,
        Some(c) => if funds < c {
            UpgradeResult::InsufficientFunds { required: c as u64 }
        } else {
            UpgradeResult::Applied {
                new_state: spec_next_state(state, action),
                currency_delta: spec_delta(state, action, cfg) as i64,
            }
        },
    }
}

/// Every applicable pair has a strictly positive cost: a required-funds
/// figure is never zero or negative.
pub proof fn lemma_cost_positive(state: TileState, action: UpgradeAction, cfg: CostConfig)
    requires
        state.wf(),
        cfg.wf(),
    ensures
        spec_cost(state, action, cfg) matches Some(c) ==> 1 <= c,
{
    if spec_cost(state, action, cfg) is Some {
        match (state, action) {
            (TileState::Tower { level }, UpgradeAction::BuildTower) => {
                assert(1 <= spec_level_cost(
                    level.value as int,
                    cfg.cost_scaling as int,
                    cfg.tower_shape,
                )) by (nonlinear_arith)
                    requires
                        1 <= level.value,
                        1 <= cfg.cost_scaling,
                ;
            },
            (TileState::Tower { .. }, UpgradeAction::BuildFarm) => {
                lemma_ceil_scaled_bounds(
                    cfg.farm_cost_scaling as int,
                    cfg.modify_penalty_num as int,
                    cfg.modify_penalty_den as int,
                );
            },
            (TileState::Farm { .. }, UpgradeAction::BuildTower) => {
                lemma_ceil_scaled_bounds(
                    cfg.tile_cost_scaling as int,
                    cfg.modify_penalty_num as int,
                    cfg.modify_penalty_den as int,
                );
            },
            _ => {},
        }
    }
}

/// Under the machine-range side condition, every cost the model can name
/// fits a currency delta: it is at least one and at most `i64::MAX`.
pub proof fn lemma_cost_bounds(state: TileState, action: UpgradeAction, cfg: CostConfig)
    requires
        state.wf(),
        cfg.wf(),
        cost_in_range(state, action, cfg),
    ensures
        spec_cost(state, action, cfg) matches Some(c) ==> 1 <= c <= i64::MAX,
{
    lemma_cost_positive(state, action, cfg);
    match (state, action) {
        (TileState::Tower { .. }, UpgradeAction::BuildFarm) => {
            lemma_ceil_scaled_bounds(
                cfg.farm_cost_scaling as int,
                cfg.modify_penalty_num as int,
                cfg.modify_penalty_den as int,
            );
        },
        (TileState::Farm { .. }, UpgradeAction::BuildTower) => {
            lemma_ceil_scaled_bounds(
                cfg.tile_cost_scaling as int,
                cfg.modify_penalty_num as int,
                cfg.modify_penalty_den as int,
            );
        },
        _ => {},
    }
}

/// The rounded-up penalty price is at least one and at most the raw
/// product plus the rounding slack.
pub proof fn lemma_ceil_scaled_bounds(base: int, num: int, den: int)
    requires
        1 <= base,
        1 <= num,
        1 <= den,
    ensures
        1 <= spec_ceil_scaled(base, num, den),
        spec_ceil_scaled(base, num, den) <= base * num + den - 1,
{
    assert(base <= base * num) by (nonlinear_arith)
        requires
            1 <= base,
            1 <= num,
    ;
    assert(den / den == 1) by (nonlinear_arith)
        requires
            1 <= den,
    ;
    lemma_div_is_ordered(den, base * num + den - 1, den);
    lemma_div_nonincreasing(base * num + den - 1, den);
}

/// The delta of a successful application is strictly negative, and its
/// magnitude never exceeds the cost: currency only decreases, by at most
/// what the cost model asked for.
pub proof fn lemma_delta_bounds(state: TileState, action: UpgradeAction, cfg: CostConfig)
    requires
        state.wf(),
        cfg.wf(),
        spec_cost(state, action, cfg) is Some,
    ensures
        -spec_cost(state, action, cfg)->Some_0 <= spec_delta(state, action, cfg) <= -1,
{
    lemma_cost_positive(state, action, cfg);
    let c = spec_cost(state, action, cfg)->Some_0;
    if is_cross_conversion(state, action) && cfg.conversion == ConversionAccounting::HalfRefund {
        lemma_div_pos_is_pos(c, 2);
        lemma_div_is_strictly_smaller(c, 2);
    }
}

impl FarmLevel {
    /// Raises the level by one.
    pub fn next(&mut self)
        requires
            old(self).value < u64::MAX,
        ensures
            final(self).value == old(self).value + 1,
    {
        self.value = self.value + 1;
    }

    /// The additive in-place upgrade cost of a farm at this level: the
    /// level plus one.
    pub fn cost(self) -> (r: u64)
        requires
            self.value < u64::MAX,
        ensures
            r == self.value + 1,
    {
        self.value + 1
    }
}

impl TowerLevel {
    /// Raises the level by one.
    pub fn next(&mut self)
        requires
            old(self).value < u64::MAX,
        ensures
            final(self).value == old(self).value + 1,
    {
        self.value = self.value + 1;
    }

    /// The linear in-place upgrade cost of a tower at this level, under the
    /// configured shape and scaling constant.
    pub fn cost(self, cfg: CostConfig) -> (r: u64)
        requires
            cfg.wf(),
            spec_level_cost(self.value as int, cfg.cost_scaling as int, cfg.tower_shape)
                <= i64::MAX,
        ensures
            r as int == spec_level_cost(self.value as int, cfg.cost_scaling as int, cfg.tower_shape),
    {
        match cfg.tower_shape {
            TowerCostShape::ScaledLevel => self.value * cfg.cost_scaling,
            TowerCostShape::ScaledSuccessor => {
                proof {
                    assert(self.value + 1 <= (self.value + 1) * cfg.cost_scaling)
                        by (nonlinear_arith)
                        requires
                            1 <= cfg.cost_scaling,
                    ;
                }
                (self.value + 1) * cfg.cost_scaling
            },
        }
    }
}

/// `base` times the penalty factor, rounded up, in machine integers.
fn penalized_cost(base: u64, cfg: CostConfig) -> (r: u64)
    requires
        cfg.wf(),
        base * cfg.modify_penalty_num + cfg.modify_penalty_den <= i64::MAX,
    ensures
        r as int == spec_ceil_scaled(
            base as int,
            cfg.modify_penalty_num as int,
            cfg.modify_penalty_den as int,
        ),
{
    proof {
        lemma_div_nonincreasing(
            base * cfg.modify_penalty_num + cfg.modify_penalty_den - 1,
            cfg.modify_penalty_den as int,
        );
        lemma_div_pos_is_pos(
            base * cfg.modify_penalty_num + cfg.modify_penalty_den - 1,
            cfg.modify_penalty_den as int,
        );
    }
    let scaled: u64 = base * cfg.modify_penalty_num;
    (scaled + cfg.modify_penalty_den - 1) / cfg.modify_penalty_den
}

/// The currency amount the pair `(state, action)` costs, or `None` when the
/// action is not applicable to the state. Matches the cost model exactly.
pub fn upgrade_cost(state: TileState, action: UpgradeAction, cfg: CostConfig) -> (r: Option<u64>)
    requires
        state.wf(),
        cfg.wf(),
        cost_in_range(state, action, cfg),
    ensures
        r is Some <==> spec_cost(state, action, cfg) is Some,
        r matches Some(c) ==> spec_cost(state, action, cfg) == Some(c as int),
        r matches Some(c) ==> 1 <= c <= i64::MAX,
{
    proof {
        lemma_cost_positive(state, action, cfg);
    }
    match (state, action) {
        (TileState::Floor, UpgradeAction::BuildTower) => Some(cfg.tile_cost_scaling),
        (TileState::ResourceDeposit { .. }, UpgradeAction::BuildFarm) => Some(
            cfg.farm_cost_scaling,
        ),
        (TileState::Tower { level }, UpgradeAction::BuildTower) => Some(level.cost(cfg)),
        (TileState::Farm { level, .. }, UpgradeAction::BuildFarm) => Some(level.cost()),
        (TileState::Tower { .. }, UpgradeAction::BuildFarm) => {
            proof {
                lemma_ceil_scaled_bounds(
                    cfg.farm_cost_scaling as int,
                    cfg.modify_penalty_num as int,
                    cfg.modify_penalty_den as int,
                );
            }
            Some(penalized_cost(cfg.farm_cost_scaling, cfg))
        },
        (TileState::Farm { .. }, UpgradeAction::BuildTower) => {
            proof {
                lemma_ceil_scaled_bounds(
                    cfg.tile_cost_scaling as int,
                    cfg.modify_penalty_num as int,
                    cfg.modify_penalty_den as int,
                );
            }
            Some(penalized_cost(cfg.tile_cost_scaling, cfg))
        },
        (TileState::Floor, UpgradeAction::BuildFarm) => None,
        (TileState::ResourceDeposit { .. }, UpgradeAction::BuildTower) => None,
    }
}

/// Whether the pair is a cross-conversion, as executable code.
fn is_conversion(state: TileState, action: UpgradeAction) -> (r: bool)
    ensures
        r == is_cross_conversion(state, action),
{
    match (state, action) {
        (TileState::Tower { .. }, UpgradeAction::BuildFarm) => true,
        (TileState::Farm { .. }, UpgradeAction::BuildTower) => true,
        _ => false,
    }
}

/// Builds the tile state that replaces `state` under the action, following
/// the transition table.
fn apply_transition(state: TileState, action: UpgradeAction) -> (r: TileState)
    requires
        state.wf(),
        applicable(state, action),
        state matches TileState::Tower { level } ==> action != UpgradeAction::BuildTower
            || level.value < u64::MAX,
        state matches TileState::Farm { level, .. } ==> action != UpgradeAction::BuildFarm
            || level.value < u64::MAX,
    ensures
        r == spec_next_state(state, action),
        r.wf(),
{
    match (state, action) {
        (TileState::Floor, UpgradeAction::BuildTower) => TileState::Tower {
            level: TowerLevel { value: 1 },
        },
        (TileState::ResourceDeposit { kind }, UpgradeAction::BuildFarm) => TileState::Farm {
            level: FarmLevel { value: 1 },
            kind,
        },
        (TileState::Tower { mut level }, UpgradeAction::BuildTower) => {
            level.next();
            TileState::Tower { level }
        },
        (TileState::Farm { mut level, kind }, UpgradeAction::BuildFarm) => {
            level.next();
            TileState::Farm { level, kind }
        },
        (TileState::Tower { .. }, UpgradeAction::BuildFarm) => TileState::Farm {
            level: FarmLevel { value: 1 },
            kind: ResourceKind::Wood,
        },
        (TileState::Farm { .. }, UpgradeAction::BuildTower) => TileState::Tower {
            level: TowerLevel { value: 1 },
        },
        (TileState::Floor, UpgradeAction::BuildFarm) => state,
        (TileState::ResourceDeposit { .. }, UpgradeAction::BuildTower) => state,
    }
}

/// The upgrade decision procedure. Deterministic in its inputs, never
/// panics, and never touches the tile or the ledger itself: the caller
/// commits the returned state and delta atomically together.
pub fn evaluate_upgrade(
    state: TileState,
    action: UpgradeAction,
    funds: u64,
    cfg: CostConfig,
) -> (r: UpgradeResult)
    requires
        state.wf(),
        cfg.wf(),
        cost_in_range(state, action, cfg),
    ensures
        r == spec_evaluate(state, action, funds as int, cfg),
        r matches UpgradeResult::Applied { new_state, currency_delta } ==> new_state.wf()
            && currency_delta < 0,
        r matches UpgradeResult::InsufficientFunds { required } ==> 1 <= required && funds
            < required,
{
    match upgrade_cost(state, action, cfg) {
        None => UpgradeResult::NotApplicable,
        Some(c) => {
            if funds < c {
                UpgradeResult::InsufficientFunds { required: c }
            } else {
                proof {
                    lemma_delta_bounds(state, action, cfg);
                }
                let refunded: bool = is_conversion(state, action) && cfg.conversion
                    == ConversionAccounting::HalfRefund;
                let debit: u64 = if refunded {
                    c - c / 2
                } else {
                    c
                };
                let new_state = apply_transition(state, action);
                UpgradeResult::Applied { new_state, currency_delta: -(debit as i64) }
            }
        },
    }
}

impl TileState {
    /// Applies the action in place when it is applicable and affordable,
    /// returning the amount to debit; otherwise leaves the tile exactly as
    /// it was and returns `None`.
    pub fn try_upgrade(&mut self, action: UpgradeAction, funds: u64, cfg: CostConfig) -> (r:
        Option<u64>)
        requires
            old(self).wf(),
            cfg.wf(),
            cost_in_range(*old(self), action, cfg),
        ensures
            final(self).wf(),
            spec_evaluate(*old(self), action, funds as int, cfg) matches UpgradeResult::Applied {
                new_state,
                currency_delta,
            } ==> *final(self) == new_state && r == Some((-currency_delta) as u64),
            !(spec_evaluate(*old(self), action, funds as int, cfg)
                matches UpgradeResult::Applied { .. }) ==> *final(self) == *old(self)
                && r is None,
            r matches Some(debit) ==> 1 <= debit <= funds,
    {
        proof {
            if spec_cost(*self, action, cfg) is Some {
                lemma_delta_bounds(*self, action, cfg);
                lemma_cost_bounds(*self, action, cfg);
            }
        }
        let verdict = evaluate_upgrade(*self, action, funds, cfg);
        match verdict {
            UpgradeResult::Applied { new_state, currency_delta } => {
                *self = new_state;
                Some((-currency_delta) as u64)
            },
            _ => None,
        }
    }
}

/// Handles one raw key press against the selected tile and the ledger: maps
/// the key to an action, evaluates the upgrade against the current balance,
/// and on success commits the new tile state and the debit together, as one
/// atomic step on the exclusively borrowed pair. An unrecognized key
/// short-circuits: nothing is evaluated, nothing changes, and the result is
/// `None`. Any other outcome is reported exactly as evaluated, and a verdict
/// short of `Applied` leaves tile and ledger untouched.
pub fn process_trigger(
    state: &mut TileState,
    ledger: &mut Currency,
    key: char,
    cfg: CostConfig,
) -> (r: Option<UpgradeResult>)
    requires
        old(state).wf(),
        cfg.wf(),
        cost_in_range(*old(state), UpgradeAction::BuildFarm, cfg),
        cost_in_range(*old(state), UpgradeAction::BuildTower, cfg),
    ensures
        final(state).wf(),
        spec_classify(key) is None ==> r is None && *final(state) == *old(state)
            && *final(ledger) == *old(ledger),
        spec_classify(key) matches Some(action) ==> r == Some(
            spec_evaluate(*old(state), action, old(ledger).wood as int, cfg),
        ),
        spec_classify(key) matches Some(action) ==> (spec_evaluate(
            *old(state),
            action,
            old(ledger).wood as int,
            cfg,
        ) matches UpgradeResult::Applied { new_state, currency_delta } ==> *final(state)
            == new_state && final(ledger).wood == old(ledger).wood + currency_delta),
        spec_classify(key) matches Some(action) ==> (!(spec_evaluate(
            *old(state),
            action,
            old(ledger).wood as int,
            cfg,
        ) matches UpgradeResult::Applied { .. }) ==> *final(state) == *old(state)
            && *final(ledger) == *old(ledger)),
{
    match classify_trigger(key) {
        None => None,
        Some(action) => {
            proof {
                if spec_cost(*state, action, cfg) is Some {
                    lemma_delta_bounds(*state, action, cfg);
                    lemma_cost_bounds(*state, action, cfg);
                }
            }
            let verdict = evaluate_upgrade(*state, action, ledger.wood, cfg);
            match verdict {
                UpgradeResult::Applied { new_state, currency_delta } => {
                    *state = new_state;
                    ledger.debit((-currency_delta) as u64);
                },
                _ => {},
            }
            Some(verdict)
        },
    }
}

/// On bare floor, building a tower costs exactly the flat tower price:
/// with sufficient funds the upgrade applies and yields a level-one tower
/// for that price; with less, it reports that price as required.
pub proof fn lemma_floor_build_tower(funds: u64, cfg: CostConfig)
    requires
        cfg.wf(),
    ensures
        funds >= cfg.tile_cost_scaling ==> spec_evaluate(
            TileState::Floor,
            UpgradeAction::BuildTower,
            funds as int,
            cfg,
        ) == (UpgradeResult::Applied {
            new_state: TileState::Tower { level: TowerLevel { value: 1 } },
            currency_delta: (-(cfg.tile_cost_scaling as int)) as i64,
        }),
        funds < cfg.tile_cost_scaling ==> spec_evaluate(
            TileState::Floor,
            UpgradeAction::BuildTower,
            funds as int,
            cfg,
        ) == (UpgradeResult::InsufficientFunds { required: cfg.tile_cost_scaling }),
{
}

/// On a resource deposit, building a farm costs exactly the flat farm
/// price: with sufficient funds the upgrade applies and yields a level-one
/// farm of the deposit's kind for that price; with less, it reports that
/// price as required.
pub proof fn lemma_deposit_build_farm(kind: ResourceKind, funds: u64, cfg: CostConfig)
    requires
        cfg.wf(),
    ensures
        funds >= cfg.farm_cost_scaling ==> spec_evaluate(
            TileState::ResourceDeposit { kind },
            UpgradeAction::BuildFarm,
            funds as int,
            cfg,
        ) == (UpgradeResult::Applied {
            new_state: TileState::Farm { level: FarmLevel { value: 1 }, kind },
            currency_delta: (-(cfg.farm_cost_scaling as int)) as i64,
        }),
        funds < cfg.farm_cost_scaling ==> spec_evaluate(
            TileState::ResourceDeposit { kind },
            UpgradeAction::BuildFarm,
            funds as int,
            cfg,
        ) == (UpgradeResult::InsufficientFunds { required: cfg.farm_cost_scaling }),
{
}

/// The tower upgrade cost is strictly increasing in the level, under either
/// cost shape: a higher tower always pays strictly more for its next level
/// than a lower one does.
pub proof fn lemma_tower_cost_strictly_increasing(
    lower: TowerLevel,
    higher: TowerLevel,
    cfg: CostConfig,
)
    requires
        cfg.wf(),
        1 <= lower.value < higher.value,
    ensures
        spec_cost(TileState::Tower { level: lower }, UpgradeAction::BuildTower, cfg)
            matches Some(a) && spec_cost(
            TileState::Tower { level: higher },
            UpgradeAction::BuildTower,
            cfg,
        ) matches Some(b) && a < b,
{
    match cfg.tower_shape {
        TowerCostShape::ScaledLevel => {
            assert((lower.value as int) * (cfg.cost_scaling as int) < (higher.value as int) * (
            cfg.cost_scaling as int)) by (nonlinear_arith)
                requires
                    lower.value < higher.value,
                    1 <= cfg.cost_scaling,
            ;
        },
        TowerCostShape::ScaledSuccessor => {
            assert((lower.value as int + 1) * (cfg.cost_scaling as int) < (higher.value as int
                + 1) * (cfg.cost_scaling as int)) by (nonlinear_arith)
                requires
                    lower.value < higher.value,
                    1 <= cfg.cost_scaling,
            ;
        },
    }
}

/// The farm upgrade cost is strictly increasing in the level as well.
pub proof fn lemma_farm_cost_strictly_increasing(
    lower: FarmLevel,
    higher: FarmLevel,
    kind: ResourceKind,
    cfg: CostConfig,
)
    requires
        cfg.wf(),
        1 <= lower.value < higher.value,
    ensures
        spec_cost(TileState::Farm { level: lower, kind }, UpgradeAction::BuildFarm, cfg)
            matches Some(a) && spec_cost(
            TileState::Farm { level: higher, kind },
            UpgradeAction::BuildFarm,
            cfg,
        ) matches Some(b) && a < b,
{
}

/// Requesting a farm on bare floor is never applicable, whatever the funds
/// and configuration; the same holds for a tower on an unexploited deposit.
pub proof fn lemma_inapplicable_requests(kind: ResourceKind, funds: int, cfg: CostConfig)
    ensures
        spec_evaluate(TileState::Floor, UpgradeAction::BuildFarm, funds, cfg)
            == UpgradeResult::NotApplicable,
        spec_evaluate(TileState::ResourceDeposit { kind }, UpgradeAction::BuildTower, funds, cfg)
            == UpgradeResult::NotApplicable,
{
}

/// Conservation: a successful application only ever decreases the balance,
/// and outside cross-conversions the decrease is exactly the cost the cost
/// model names for the pair.
pub proof fn lemma_conservation(
    state: TileState,
    action: UpgradeAction,
    funds: int,
    cfg: CostConfig,
)
    requires
        state.wf(),
        cfg.wf(),
        cost_in_range(state, action, cfg),
    ensures
        spec_evaluate(state, action, funds, cfg) matches UpgradeResult::Applied {
            currency_delta,
            ..
        } ==> currency_delta < 0,
        spec_evaluate(state, action, funds, cfg) matches UpgradeResult::Applied {
            currency_delta,
            ..
        } ==> is_cross_conversion(state, action) || spec_cost(state, action, cfg) == Some(
            -(currency_delta as int),
        ),
{
    if spec_cost(state, action, cfg) is Some {
        lemma_delta_bounds(state, action, cfg);
        lemma_cost_bounds(state, action, cfg);
    }
}

} // verus!

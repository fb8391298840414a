//! Balance-tuning configuration for the cost model.
//!
//! Every scaling constant is a named, overridable value passed explicitly to
//! the engine, never a hidden global, so tuning does not touch the decision
//! logic. The cross-conversion penalty factor is an exact rational,
//! numerator over denominator, so that "base cost times penalty, rounded up"
//! is computed in integers with no rounding surprises.

use vstd::prelude::*;

verus! {

/// Default scaling constant for a tower's in-place upgrade cost.
pub const COST_SCALING: u64 = 5;

/// Default flat cost of building a tower on bare floor.
pub const TILE_COST_SCALING: u64 = 5;

/// Default flat cost of building a farm on a resource deposit.
pub const FARM_COST_SCALING: u64 = 5;

/// Default cross-conversion penalty factor, as numerator over
/// [`MODIFY_PENALTY_DEN`]: three halves.
pub const MODIFY_PENALTY_NUM: u64 = 3;

/// Denominator of the default cross-conversion penalty factor.
pub const MODIFY_PENALTY_DEN: u64 = 2;

/// How the in-place tower upgrade cost grows with the level. Both shapes are
/// linear in the level; which one is in force is fixed by configuration and
/// never changes silently between calls.
#[derive(Clone, Copy, Debug, PartialEq, Eq, Structural)]
pub enum TowerCostShape {
    /// The upgrade away from level `n` costs `n * cost_scaling`.
    ScaledLevel,
    /// The upgrade away from level `n` costs `(n + 1) * cost_scaling`.
    ScaledSuccessor,
}

/// How the currency delta of a cross-conversion (tower to farm, or farm to
/// tower) is accounted. Affordability is always gated on the full penalty
/// cost; the policy only decides how much of it is finally charged.
#[derive(Clone, Copy, Debug, PartialEq, Eq, Structural)]
pub enum ConversionAccounting {
    /// Charge the full penalty cost.
    FullPenalty,
    /// Charge the penalty cost but refund half of it (rounded down) as the
    /// demolished structure's salvage value, so the net charge is the
    /// penalty cost rounded up to the nearest half.
    HalfRefund,
}

/// The complete cost configuration: one value of this type pins every number
/// the engine uses and both policy choices.
#[derive(Clone, Copy, Debug, PartialEq, Eq, Structural)]
pub struct CostConfig {
    /// Scaling constant for a tower's in-place upgrade cost.
    pub cost_scaling: u64,
    /// Flat cost of building a tower on bare floor.
    pub tile_cost_scaling: u64,
    /// Flat cost of building a farm on a resource deposit.
    pub farm_cost_scaling: u64,
    /// Numerator of the cross-conversion penalty factor.
    pub modify_penalty_num: u64,
    /// Denominator of the cross-conversion penalty factor.
    pub modify_penalty_den: u64,
    /// Shape of the tower's in-place upgrade cost.
    pub tower_shape: TowerCostShape,
    /// Accounting policy for cross-conversions.
    pub conversion: ConversionAccounting,
}

impl CostConfig {
    /// Well-formedness: every constant is positive, and the penalty
    /// arithmetic (base times numerator, plus the denominator for the
    /// round-up) stays within the machine range of a currency delta.
    pub open spec fn wf(self) -> bool {
        &&& 1 <= self.cost_scaling
        &&& 1 <= self.tile_cost_scaling <= i64::MAX
        &&& 1 <= self.farm_cost_scaling <= i64::MAX
        &&& 1 <= self.modify_penalty_num
        &&& 1 <= self.modify_penalty_den
        &&& self.farm_cost_scaling * self.modify_penalty_num + self.modify_penalty_den
            <= i64::MAX
        &&& self.tile_cost_scaling * self.modify_penalty_num + self.modify_penalty_den
            <= i64::MAX
    }
}

impl Default for CostConfig {
    /// The default balance: every scaling constant five, penalty three
    /// halves, successor-shaped tower costs, full penalty charged on
    /// cross-conversion.
    fn default() -> (c: Self)
        ensures
            c.cost_scaling == COST_SCALING,
            c.tile_cost_scaling == TILE_COST_SCALING,
            c.farm_cost_scaling == FARM_COST_SCALING,
            c.modify_penalty_num == MODIFY_PENALTY_NUM,
            c.modify_penalty_den == MODIFY_PENALTY_DEN,
            c.tower_shape == TowerCostShape::ScaledSuccessor,
            c.conversion == ConversionAccounting::FullPenalty,
            c.wf(),
    {
        CostConfig {
            cost_scaling: COST_SCALING,
            tile_cost_scaling: TILE_COST_SCALING,
            farm_cost_scaling: FARM_COST_SCALING,
            modify_penalty_num: MODIFY_PENALTY_NUM,
            modify_penalty_den: MODIFY_PENALTY_DEN,
            tower_shape: TowerCostShape::ScaledSuccessor,
            conversion: ConversionAccounting::FullPenalty,
        }
    }
}

} // verus!

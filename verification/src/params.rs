//! The four risk parameters of a deployment.

use vstd::prelude::*;

verus! {

/// Collateral required to open or keep a borrowing position: 110%.
pub const DEFAULT_MIN_COLLATERAL_RATIO: i128 = 11_000;

/// Collateral ratio below which a position may be liquidated: 105%.
pub const DEFAULT_LIQUIDATION_THRESHOLD: i128 = 10_500;

/// Share of a debt that one liquidation may repay: 50%.
pub const DEFAULT_CLOSE_FACTOR: i128 = 5_000;

/// Bonus paid to the liquidator on the liquidated amount: 10%.
pub const DEFAULT_LIQUIDATION_INCENTIVE: i128 = 1_000;

/// Collateralization and liquidation economics, each in basis points.
#[derive(Clone, Copy, Debug, PartialEq, Eq, Structural)]
pub struct RiskParameters {
    pub min_collateral_ratio: i128,
    pub liquidation_threshold: i128,
    pub close_factor: i128,
    pub liquidation_incentive: i128,
}

impl RiskParameters {
    /// What every stored parameter set satisfies: no field is negative, and a
    /// position becomes liquidatable strictly below the ratio required of it.
    pub open spec fn valid(self) -> bool {
        &&& 0 <= self.liquidation_threshold < self.min_collateral_ratio
        &&& 0 <= self.close_factor
        &&& 0 <= self.liquidation_incentive
    }

    /// The parameters of a freshly initialized deployment.
    pub open spec fn defaults() -> RiskParameters {
        RiskParameters {
            min_collateral_ratio: DEFAULT_MIN_COLLATERAL_RATIO,
            liquidation_threshold: DEFAULT_LIQUIDATION_THRESHOLD,
            close_factor: DEFAULT_CLOSE_FACTOR,
            liquidation_incentive: DEFAULT_LIQUIDATION_INCENTIVE,
        }
    }

    /// Builds `defaults()`.
    pub fn protocol_defaults() -> (params: RiskParameters)
        ensures
            params == RiskParameters::defaults(),
            params.valid(),
    {
        RiskParameters {
            min_collateral_ratio: DEFAULT_MIN_COLLATERAL_RATIO,
            liquidation_threshold: DEFAULT_LIQUIDATION_THRESHOLD,
            close_factor: DEFAULT_CLOSE_FACTOR,
            liquidation_incentive: DEFAULT_LIQUIDATION_INCENTIVE,
        }
    }

    /// Decides `valid`.
    pub fn is_valid(&self) -> (ok: bool)
        ensures
            ok == self.valid(),
    {
        0 <= self.liquidation_threshold && self.liquidation_threshold < self.min_collateral_ratio
            && 0 <= self.close_factor && 0 <= self.liquidation_incentive
    }
}

} // verus!

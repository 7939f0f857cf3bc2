//! The risk parameter engine: bounded, consistent updates of the four
//! parameters by the administrator, and the liquidation amounts that follow
//! from them.

use crate::admin::{is_admin, require_admin, set_admin, set_admin_step};
use crate::deployment::{Deployment, DeploymentView};
use crate::events::{Event, EventView};
use crate::fixed_point::{
    basis_point_share,
    check_change_limit,
    fits_i128,
    scale_by_basis_points,
    within_change_limit,
};
use crate::params::RiskParameters;
use crate::types::Address;
use vstd::prelude::*;

verus! {

/// Why a risk-management operation failed.
#[derive(Clone, Copy, Debug, PartialEq, Eq, Structural)]
pub enum RiskManagementError {
    /// The caller is not the administrator.
    Unauthorized,
    /// A supplied value lies further from the current one than one update
    /// may move it.
    ParameterChangeTooLarge,
    /// The update would not leave the minimum collateral ratio above the
    /// liquidation threshold.
    InvalidCollateralRatio,
    /// The risk parameters have never been initialized.
    NotInitialized,
    /// The amount asked for is not a 128-bit integer.
    Overflow,
}

/// A partial update: each field either names a new value or is left as it is.
#[derive(Clone, Copy, Debug, PartialEq, Eq, Structural)]
pub struct RiskParamsUpdate {
    pub min_collateral_ratio: Option<i128>,
    pub liquidation_threshold: Option<i128>,
    pub close_factor: Option<i128>,
    pub liquidation_incentive: Option<i128>,
}

/// Whether a field may go from `current` to what `proposed` asks for.
pub open spec fn field_within_limit(current: i128, proposed: Option<i128>) -> bool {
    proposed matches Some(value) ==> within_change_limit(current as int, value as int)
}

/// The value of a field after an update.
pub open spec fn field_after(current: i128, proposed: Option<i128>) -> i128 {
    match proposed {
        Some(value) => value,
        None => current,
    }
}

impl RiskParamsUpdate {
    /// Whether every supplied field stays within the change limit.
    pub open spec fn within_limits(self, current: RiskParameters) -> bool {
        &&& field_within_limit(current.min_collateral_ratio, self.min_collateral_ratio)
        &&& field_within_limit(current.liquidation_threshold, self.liquidation_threshold)
        &&& field_within_limit(current.close_factor, self.close_factor)
        &&& field_within_limit(current.liquidation_incentive, self.liquidation_incentive)
    }

    /// The prospective parameters: supplied fields replaced, the others kept.
    pub open spec fn applied_to(self, current: RiskParameters) -> RiskParameters {
        RiskParameters {
            min_collateral_ratio: field_after(
                current.min_collateral_ratio,
                self.min_collateral_ratio,
            ),
            liquidation_threshold: field_after(
                current.liquidation_threshold,
                self.liquidation_threshold,
            ),
            close_factor: field_after(current.close_factor, self.close_factor),
            liquidation_incentive: field_after(
                current.liquidation_incentive,
                self.liquidation_incentive,
            ),
        }
    }
}

/// What an update of `current` comes to: the change limit is checked on all
/// supplied fields first, then the collateral ratio against the threshold on
/// the prospective parameters.
pub open spec fn update_outcome(current: RiskParameters, update: RiskParamsUpdate) -> Result<
    RiskParameters,
    RiskManagementError,
> {
    let next = update.applied_to(current);
    if !update.within_limits(current) {
        Err(RiskManagementError::ParameterChangeTooLarge)
    } else if next.min_collateral_ratio <= next.liquidation_threshold {
        Err(RiskManagementError::InvalidCollateralRatio)
    } else {
        Ok(next)
    }
}

/// `initialize` on views.
pub open spec fn initialize_step(state: DeploymentView, admin: Seq<char>) -> (
    DeploymentView,
    Result<(), RiskManagementError>,
) {
    let (with_admin, assigned) = set_admin_step(state, admin, None);
    if assigned is Ok {
        (DeploymentView { risk_params: Some(RiskParameters::defaults()), ..with_admin }, Ok(()))
    } else {
        (state, Err(RiskManagementError::Unauthorized))
    }
}

/// `set_risk_params` on views.
pub open spec fn set_risk_params_step(
    state: DeploymentView,
    caller: Seq<char>,
    update: RiskParamsUpdate,
) -> (DeploymentView, Result<(), RiskManagementError>) {
    if !is_admin(state, caller) {
        (state, Err(RiskManagementError::Unauthorized))
    } else {
        match state.risk_params {
            None => (state, Err(RiskManagementError::NotInitialized)),
            Some(current) => match update_outcome(current, update) {
                Ok(next) => (
                    DeploymentView {
                        risk_params: Some(next),
                        events: state.events.push(EventView::RiskParamsChanged { params: next }),
                        ..state
                    },
                    Ok(()),
                ),
                Err(error) => (state, Err(error)),
            },
        }
    }
}

/// The share of `amount` that `bps` basis points stand for, rounded down,
/// where it is a 128-bit integer.
pub open spec fn checked_share(amount: i128, bps: i128) -> Result<i128, RiskManagementError> {
    let share = basis_point_share(amount as int, bps as int);
    if fits_i128(share) {
        Ok(share as i128)
    } else {
        Err(RiskManagementError::Overflow)
    }
}

/// `get_max_liquidatable_amount` on views.
pub open spec fn max_liquidatable_amount(state: DeploymentView, outstanding_debt: i128) -> Result<
    i128,
    RiskManagementError,
> {
    match state.risk_params {
        Some(params) => checked_share(outstanding_debt, params.close_factor),
        None => Err(RiskManagementError::NotInitialized),
    }
}

/// `get_liquidation_incentive_amount` on views.
pub open spec fn liquidation_incentive_amount(
    state: DeploymentView,
    liquidated_amount: i128,
) -> Result<i128, RiskManagementError> {
    match state.risk_params {
        Some(params) => checked_share(liquidated_amount, params.liquidation_incentive),
        None => Err(RiskManagementError::NotInitialized),
    }
}

/// Computes `update_outcome`.
pub fn validate_update(current: RiskParameters, update: RiskParamsUpdate) -> (outcome: Result<
    RiskParameters,
    RiskManagementError,
>)
    ensures
        outcome == update_outcome(current, update),
{
    let mut next = current;
    if let Some(value) = update.min_collateral_ratio {
        if !check_change_limit(current.min_collateral_ratio, value) {
            return Err(RiskManagementError::ParameterChangeTooLarge);
        }
        next.min_collateral_ratio = value;
    }
    if let Some(value) = update.liquidation_threshold {
        if !check_change_limit(current.liquidation_threshold, value) {
            return Err(RiskManagementError::ParameterChangeTooLarge);
        }
        next.liquidation_threshold = value;
    }
    if let Some(value) = update.close_factor {
        if !check_change_limit(current.close_factor, value) {
            return Err(RiskManagementError::ParameterChangeTooLarge);
        }
        next.close_factor = value;
    }
    if let Some(value) = update.liquidation_incentive {
        if !check_change_limit(current.liquidation_incentive, value) {
            return Err(RiskManagementError::ParameterChangeTooLarge);
        }
        next.liquidation_incentive = value;
    }
    if next.min_collateral_ratio <= next.liquidation_threshold {
        return Err(RiskManagementError::InvalidCollateralRatio);
    }
    Ok(next)
}

/// An update that `update_outcome` accepts takes valid parameters to valid
/// parameters.
pub proof fn lemma_update_preserves_validity(current: RiskParameters, update: RiskParamsUpdate)
    requires
        current.valid(),
    ensures
        update_outcome(current, update) matches Ok(next) ==> next.valid(),
{
}

/// Sets up a deployment that has no administrator yet: `admin` becomes the
/// administrator and the risk parameters take their defaults. Refuses, and
/// changes nothing, once an administrator exists.
pub fn initialize(env: &mut Deployment, admin: Address) -> (result: Result<
    (),
    RiskManagementError,
>)
    ensures
        (final(env)@, result) == initialize_step(old(env)@, admin@),
{
    match set_admin(env, admin, None) {
        Ok(()) => {
            env.put_risk_params(RiskParameters::protocol_defaults());
            Ok(())
        },
        Err(_) => Err(RiskManagementError::Unauthorized),
    }
}

/// Replaces the supplied risk parameters and records `RiskParamsChanged`,
/// where the caller is the administrator and `update_outcome` accepts the
/// update; otherwise reports why not and changes nothing.
pub fn set_risk_params(
    env: &mut Deployment,
    caller: Address,
    min_collateral_ratio: Option<i128>,
    liquidation_threshold: Option<i128>,
    close_factor: Option<i128>,
    liquidation_incentive: Option<i128>,
) -> (result: Result<(), RiskManagementError>)
    ensures
        (final(env)@, result) == set_risk_params_step(
            old(env)@,
            caller@,
            (RiskParamsUpdate {
                min_collateral_ratio,
                liquidation_threshold,
                close_factor,
                liquidation_incentive,
            }),
        ),
{
    if require_admin(env, &caller).is_err() {
        return Err(RiskManagementError::Unauthorized);
    }
    let current = match env.risk_params() {
        Some(params) => params,
        None => {
            return Err(RiskManagementError::NotInitialized);
        },
    };
    let update = RiskParamsUpdate {
        min_collateral_ratio,
        liquidation_threshold,
        close_factor,
        liquidation_incentive,
    };
    match validate_update(current, update) {
        Ok(next) => {
            proof {
                lemma_update_preserves_validity(current, update);
            }
            env.put_risk_params(next);
            env.emit(Event::RiskParamsChanged { params: next });
            Ok(())
        },
        Err(error) => Err(error),
    }
}

/// The stored minimum collateral ratio.
pub fn get_min_collateral_ratio(env: &Deployment) -> (result: Result<i128, RiskManagementError>)
    ensures
        result == match env@.risk_params {
            Some(params) => Ok::<i128, RiskManagementError>(params.min_collateral_ratio),
            None => Err(RiskManagementError::NotInitialized),
        },
{
    match env.risk_params() {
        Some(params) => Ok(params.min_collateral_ratio),
        None => Err(RiskManagementError::NotInitialized),
    }
}

/// The stored liquidation threshold.
pub fn get_liquidation_threshold(env: &Deployment) -> (result: Result<i128, RiskManagementError>)
    ensures
        result == match env@.risk_params {
            Some(params) => Ok::<i128, RiskManagementError>(params.liquidation_threshold),
            None => Err(RiskManagementError::NotInitialized),
        },
{
    match env.risk_params() {
        Some(params) => Ok(params.liquidation_threshold),
        None => Err(RiskManagementError::NotInitialized),
    }
}

/// The stored close factor.
pub fn get_close_factor(env: &Deployment) -> (result: Result<i128, RiskManagementError>)
    ensures
        result == match env@.risk_params {
            Some(params) => Ok::<i128, RiskManagementError>(params.close_factor),
            None => Err(RiskManagementError::NotInitialized),
        },
{
    match env.risk_params() {
        Some(params) => Ok(params.close_factor),
        None => Err(RiskManagementError::NotInitialized),
    }
}

/// The stored liquidation incentive.
pub fn get_liquidation_incentive(env: &Deployment) -> (result: Result<i128, RiskManagementError>)
    ensures
        result == match env@.risk_params {
            Some(params) => Ok::<i128, RiskManagementError>(params.liquidation_incentive),
            None => Err(RiskManagementError::NotInitialized),
        },
{
    match env.risk_params() {
        Some(params) => Ok(params.liquidation_incentive),
        None => Err(RiskManagementError::NotInitialized),
    }
}

/// The share of `amount` that `bps` basis points stand for, rounded down.
pub fn share_of(amount: i128, bps: i128) -> (result: Result<i128, RiskManagementError>)
    ensures
        result == checked_share(amount, bps),
{
    match scale_by_basis_points(amount, bps) {
        Some(share) => Ok(share),
        None => Err(RiskManagementError::Overflow),
    }
}

/// How much of `outstanding_debt` one liquidation may repay: the close
/// factor's share of it, rounded down.
pub fn get_max_liquidatable_amount(env: &Deployment, outstanding_debt: i128) -> (result: Result<
    i128,
    RiskManagementError,
>)
    ensures
        result == max_liquidatable_amount(env@, outstanding_debt),
{
    match env.risk_params() {
        Some(params) => share_of(outstanding_debt, params.close_factor),
        None => Err(RiskManagementError::NotInitialized),
    }
}

/// The bonus owed to the liquidator of `liquidated_amount`: the liquidation
/// incentive's share of it, rounded down.
pub fn get_liquidation_incentive_amount(env: &Deployment, liquidated_amount: i128) -> (result:
    Result<i128, RiskManagementError>)
    ensures
        result == liquidation_incentive_amount(env@, liquidated_amount),
{
    match env.risk_params() {
        Some(params) => share_of(liquidated_amount, params.liquidation_incentive),
        None => Err(RiskManagementError::NotInitialized),
    }
}

/// For a current value that is not negative, the change limit allows exactly
/// the values within a tenth of it, the tenth rounded down.
pub proof fn lemma_change_limit_is_a_tenth(current: int, proposed: int)
    requires
        current >= 0,
    ensures
        within_change_limit(current, proposed) <==> current - current / 10 <= proposed <= current
            + current / 10,
{
}

/// For the administrator, an update that stays within the change limit and
/// keeps the collateral ratio above the threshold succeeds: all four
/// parameters take their prospective values at once, one `RiskParamsChanged`
/// carrying them is recorded, and nothing else changes.
pub proof fn lemma_bounded_consistent_update_succeeds(
    state: DeploymentView,
    caller: Seq<char>,
    update: RiskParamsUpdate,
)
    requires
        is_admin(state, caller),
        state.risk_params is Some,
        update.within_limits(state.risk_params->0),
        update.applied_to(state.risk_params->0).min_collateral_ratio > update.applied_to(
            state.risk_params->0,
        ).liquidation_threshold,
    ensures
        ({
            let next = update.applied_to(state.risk_params->0);
            set_risk_params_step(state, caller, update) == (
                DeploymentView {
                    risk_params: Some(next),
                    events: state.events.push(EventView::RiskParamsChanged { params: next }),
                    ..state
                },
                Ok::<(), RiskManagementError>(()),
            )
        }),
{
}

/// An update is all or nothing: either it succeeds and the stored parameters
/// are the prospective ones, or it fails and the state is what it was.
pub proof fn lemma_update_is_all_or_nothing(
    state: DeploymentView,
    caller: Seq<char>,
    update: RiskParamsUpdate,
)
    ensures
        ({
            let (after, result) = set_risk_params_step(state, caller, update);
            if result is Ok {
                &&& state.risk_params is Some
                &&& after.risk_params == Some(update.applied_to(state.risk_params->0))
            } else {
                after == state
            }
        }),
{
}

/// An update with a supplied field beyond the change limit is refused with
/// `ParameterChangeTooLarge`, whatever else it holds, and changes nothing.
pub proof fn lemma_oversized_change_is_refused(
    state: DeploymentView,
    caller: Seq<char>,
    update: RiskParamsUpdate,
)
    requires
        is_admin(state, caller),
        state.risk_params is Some,
        !update.within_limits(state.risk_params->0),
    ensures
        set_risk_params_step(state, caller, update) == (
            state,
            Err::<(), RiskManagementError>(RiskManagementError::ParameterChangeTooLarge),
        ),
{
}

/// An update within the change limit that would leave the liquidation
/// threshold at or above the minimum collateral ratio is refused with
/// `InvalidCollateralRatio` and changes nothing.
pub proof fn lemma_inconsistent_update_is_refused(
    state: DeploymentView,
    caller: Seq<char>,
    update: RiskParamsUpdate,
)
    requires
        is_admin(state, caller),
        state.risk_params is Some,
        update.within_limits(state.risk_params->0),
        update.applied_to(state.risk_params->0).liquidation_threshold >= update.applied_to(
            state.risk_params->0,
        ).min_collateral_ratio,
    ensures
        set_risk_params_step(state, caller, update) == (
            state,
            Err::<(), RiskManagementError>(RiskManagementError::InvalidCollateralRatio),
        ),
{
}

/// Authorization comes first: from anyone but the administrator every update
/// is refused with `Unauthorized` and changes nothing.
pub proof fn lemma_update_needs_admin(
    state: DeploymentView,
    caller: Seq<char>,
    update: RiskParamsUpdate,
)
    requires
        !is_admin(state, caller),
    ensures
        set_risk_params_step(state, caller, update) == (
            state,
            Err::<(), RiskManagementError>(RiskManagementError::Unauthorized),
        ),
{
}

/// A share is the product divided by the scale and rounded down: it is the
/// one integer that the product reaches and whose successor it does not.
pub proof fn lemma_share_rounds_down(amount: int, bps: int)
    ensures
        basis_point_share(amount, bps) * 10_000 <= amount * bps < (basis_point_share(amount, bps)
            + 1) * 10_000,
{
}

/// Of an amount that is not negative, a share of at most one hundred percent
/// lies between zero and the amount, so it is always a 128-bit integer.
pub proof fn lemma_share_within_amount(amount: i128, bps: i128)
    requires
        amount >= 0,
        0 <= bps <= 10_000,
    ensures
        checked_share(amount, bps) is Ok,
        0 <= checked_share(amount, bps)->Ok_0 <= amount,
{
    assert(0 <= amount * bps <= amount * 10_000) by (nonlinear_arith)
        requires
            amount >= 0,
            0 <= bps <= 10_000,
    ;
}

/// The liquidation amounts are functions of their argument and of one stored
/// parameter each: two states that agree on the close factor give the same
/// maximum liquidatable amount, and two that agree on the liquidation
/// incentive give the same incentive amount.
pub proof fn lemma_liquidation_amounts_depend_on_one_parameter(
    one: DeploymentView,
    other: DeploymentView,
    amount: i128,
)
    requires
        one.risk_params is Some,
        other.risk_params is Some,
    ensures
        one.risk_params->0.close_factor == other.risk_params->0.close_factor
            ==> max_liquidatable_amount(one, amount) == max_liquidatable_amount(other, amount),
        one.risk_params->0.liquidation_incentive == other.risk_params->0.liquidation_incentive
            ==> liquidation_incentive_amount(one, amount) == liquidation_incentive_amount(
            other,
            amount,
        ),
{
}

} // verus!

//! The life of a deployment as a whole: what holds of every state that any
//! sequence of operations can reach.

use crate::admin::{grant_role_step, revoke_role_step, set_admin_step};
use crate::deployment::DeploymentView;
use crate::risk_management::{
    initialize_step,
    lemma_update_preserves_validity,
    set_risk_params_step,
    RiskParamsUpdate,
};
use vstd::prelude::*;

verus! {

/// One call of a state-changing operation, with its arguments.
#[allow(inconsistent_fields)]
pub enum Operation {
    Initialize { admin: Seq<char> },
    SetAdmin { new_admin: Seq<char>, caller: Option<Seq<char>> },
    GrantRole { caller: Seq<char>, role: Seq<char>, account: Seq<char> },
    RevokeRole { caller: Seq<char>, role: Seq<char>, account: Seq<char> },
    SetRiskParams { caller: Seq<char>, update: RiskParamsUpdate },
}

impl Operation {
    /// The state after the operation.
    pub open spec fn apply(self, state: DeploymentView) -> DeploymentView {
        match self {
            Operation::Initialize { admin } => initialize_step(state, admin).0,
            Operation::SetAdmin { new_admin, caller } => set_admin_step(state, new_admin, caller).0,
            Operation::GrantRole { caller, role, account } => grant_role_step(
                state,
                caller,
                role,
                account,
            ).0,
            Operation::RevokeRole { caller, role, account } => revoke_role_step(
                state,
                caller,
                role,
                account,
            ).0,
            Operation::SetRiskParams { caller, update } => set_risk_params_step(
                state,
                caller,
                update,
            ).0,
        }
    }

    /// Whether the operation succeeds in `state`.
    pub open spec fn succeeds(self, state: DeploymentView) -> bool {
        match self {
            Operation::Initialize { admin } => initialize_step(state, admin).1 is Ok,
            Operation::SetAdmin { new_admin, caller } => set_admin_step(
                state,
                new_admin,
                caller,
            ).1 is Ok,
            Operation::GrantRole { caller, role, account } => grant_role_step(
                state,
                caller,
                role,
                account,
            ).1 is Ok,
            Operation::RevokeRole { caller, role, account } => revoke_role_step(
                state,
                caller,
                role,
                account,
            ).1 is Ok,
            Operation::SetRiskParams { caller, update } => set_risk_params_step(
                state,
                caller,
                update,
            ).1 is Ok,
        }
    }

    /// Whether the operation is one of the two that can name an
    /// administrator.
    pub open spec fn names_admin(self) -> bool {
        self is Initialize || self is SetAdmin
    }
}

/// The state after a sequence of operations, applied in order.
pub open spec fn run(state: DeploymentView, operations: Seq<Operation>) -> DeploymentView
    decreases operations.len(),
{
    if operations.len() == 0 {
        state
    } else {
        operations.last().apply(run(state, operations.drop_last()))
    }
}

/// No operation leads out of the valid states.
pub proof fn lemma_operations_preserve_validity(state: DeploymentView, operation: Operation)
    requires
        state.valid(),
    ensures
        operation.apply(state).valid(),
{
    match operation {
        Operation::SetRiskParams { caller, update } => {
            if state.risk_params is Some {
                lemma_update_preserves_validity(state.risk_params->0, update);
            }
        },
        _ => {},
    }
}

/// Every state that a deployment can reach is valid: stored risk parameters
/// are never negative, keep the minimum collateral ratio above the
/// liquidation threshold, and exist only under an administrator.
pub proof fn lemma_reachable_states_are_valid(operations: Seq<Operation>)
    ensures
        run(DeploymentView::initial(), operations).valid(),
    decreases operations.len(),
{
    if operations.len() > 0 {
        lemma_reachable_states_are_valid(operations.drop_last());
        lemma_operations_preserve_validity(
            run(DeploymentView::initial(), operations.drop_last()),
            operations.last(),
        );
    }
}

/// An operation that fails changes nothing; one that succeeds appends
/// exactly one event to the log and leaves the earlier ones in place.
pub proof fn lemma_failure_changes_nothing(state: DeploymentView, operation: Operation)
    ensures
        !operation.succeeds(state) ==> operation.apply(state) == state,
        operation.succeeds(state) ==> operation.apply(state).events.len() == state.events.len() + 1
            && operation.apply(state).events.drop_last() == state.events,
{
}

/// Once set, the administrator is never removed, and is replaced only by a
/// `SetAdmin` whose caller is the administrator of the moment.
pub proof fn lemma_admin_changes_only_by_its_holder(state: DeploymentView, operation: Operation)
    requires
        state.admin is Some,
    ensures
        operation.apply(state).admin is Some,
        operation.apply(state).admin != state.admin ==> (operation matches Operation::SetAdmin {
            caller,
            ..
        } && caller == state.admin),
{
}

/// Until an operation that names an administrator is called, there is none,
/// and nothing else has happened either: whatever else is tried fails.
pub proof fn lemma_no_admin_before_first_assignment(operations: Seq<Operation>)
    requires
        forall|i: int| 0 <= i < operations.len() ==> !(#[trigger] operations[i]).names_admin(),
    ensures
        run(DeploymentView::initial(), operations) == DeploymentView::initial(),
        run(DeploymentView::initial(), operations).admin is None,
    decreases operations.len(),
{
    if operations.len() > 0 {
        let earlier = operations.drop_last();
        assert forall|i: int| 0 <= i < earlier.len() implies !(#[trigger] earlier[i]).names_admin() by {
            assert(earlier[i] == operations[i]);
        }
        lemma_no_admin_before_first_assignment(earlier);
        assert(!operations[operations.len() - 1].names_admin());
    }
}

/// Only a successful `SetRiskParams` or `Initialize` changes the stored risk
/// parameters.
pub proof fn lemma_parameters_change_only_by_update(state: DeploymentView, operation: Operation)
    ensures
        operation.apply(state).risk_params != state.risk_params ==> operation.succeeds(state) && (
        operation is SetRiskParams || operation is Initialize),
{
}

} // verus!

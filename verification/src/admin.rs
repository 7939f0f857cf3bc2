//! Access control: one administrator, and named roles granted to accounts.
//!
//! Each operation is specified by a function on views from the state before
//! to the state after and the result; the executable operation is proved to
//! compute exactly that. A failed operation leaves the state as it was.

use crate::deployment::{address_view, Deployment, DeploymentView};
use crate::events::{Event, EventView};
use crate::types::{Address, Symbol};
use vstd::prelude::*;

verus! {

/// Why an access-control operation was refused.
#[derive(Clone, Copy, Debug, PartialEq, Eq, Structural)]
pub enum AdminError {
    /// The caller lacks the administrator or role capability that the
    /// operation asks for.
    Unauthorized,
}

/// Whether `caller` is the administrator.
pub open spec fn is_admin(state: DeploymentView, caller: Seq<char>) -> bool {
    state.admin == Some(caller)
}

/// Whether `account` holds `role`.
pub open spec fn holds_role(state: DeploymentView, role: Seq<char>, account: Seq<char>) -> bool {
    state.roles.contains((role, account))
}

/// What a guard answers: success where the caller is allowed, the typed
/// refusal otherwise.
pub open spec fn guard(allowed: bool) -> Result<(), AdminError> {
    if allowed {
        Ok(())
    } else {
        Err(AdminError::Unauthorized)
    }
}

/// What `require_admin` answers.
pub open spec fn admin_check(state: DeploymentView, caller: Seq<char>) -> Result<(), AdminError> {
    guard(is_admin(state, caller))
}

/// What `require_role_or_admin` answers.
pub open spec fn role_or_admin_check(
    state: DeploymentView,
    caller: Seq<char>,
    role: Seq<char>,
) -> Result<(), AdminError> {
    guard(is_admin(state, caller) || holds_role(state, role, caller))
}

/// Whether `caller` may name a new administrator: anyone may while there is
/// none, afterwards only the administrator.
pub open spec fn may_set_admin(state: DeploymentView, caller: Option<Seq<char>>) -> bool {
    match state.admin {
        None => true,
        Some(current) => caller == Some(current),
    }
}

/// `set_admin` on views.
pub open spec fn set_admin_step(
    state: DeploymentView,
    new_admin: Seq<char>,
    caller: Option<Seq<char>>,
) -> (DeploymentView, Result<(), AdminError>) {
    if may_set_admin(state, caller) {
        (
            DeploymentView {
                admin: Some(new_admin),
                events: state.events.push(EventView::AdminChanged { new_admin }),
                ..state
            },
            Ok(()),
        )
    } else {
        (state, Err(AdminError::Unauthorized))
    }
}

/// `grant_role` on views.
pub open spec fn grant_role_step(
    state: DeploymentView,
    caller: Seq<char>,
    role: Seq<char>,
    account: Seq<char>,
) -> (DeploymentView, Result<(), AdminError>) {
    if is_admin(state, caller) {
        (
            DeploymentView {
                roles: state.roles.insert((role, account)),
                events: state.events.push(EventView::RoleGranted { role, account }),
                ..state
            },
            Ok(()),
        )
    } else {
        (state, Err(AdminError::Unauthorized))
    }
}

/// `revoke_role` on views.
pub open spec fn revoke_role_step(
    state: DeploymentView,
    caller: Seq<char>,
    role: Seq<char>,
    account: Seq<char>,
) -> (DeploymentView, Result<(), AdminError>) {
    if is_admin(state, caller) {
        (
            DeploymentView {
                roles: state.roles.remove((role, account)),
                events: state.events.push(EventView::RoleRevoked { role, account }),
                ..state
            },
            Ok(()),
        )
    } else {
        (state, Err(AdminError::Unauthorized))
    }
}

/// Whether an administrator has been set.
pub fn has_admin(env: &Deployment) -> (present: bool)
    ensures
        present == (env@.admin is Some),
{
    env.admin().is_some()
}

/// The administrator, if one has been set.
pub fn get_admin(env: &Deployment) -> (admin: Option<Address>)
    ensures
        address_view(admin) == env@.admin,
{
    env.admin()
}

/// Makes `new_admin` the administrator and records `AdminChanged`, where
/// `may_set_admin` allows it; otherwise refuses and changes nothing.
pub fn set_admin(env: &mut Deployment, new_admin: Address, caller: Option<Address>) -> (result:
    Result<(), AdminError>)
    ensures
        (final(env)@, result) == set_admin_step(old(env)@, new_admin@, address_view(caller)),
{
    let allowed = if has_admin(env) {
        match &caller {
            Some(c) => env.admin_is(c),
            None => false,
        }
    } else {
        true
    };
    if !allowed {
        return Err(AdminError::Unauthorized);
    }
    env.put_admin(new_admin.clone());
    env.emit(Event::AdminChanged { new_admin });
    Ok(())
}

/// Succeeds exactly for the administrator.
pub fn require_admin(env: &Deployment, caller: &Address) -> (result: Result<(), AdminError>)
    ensures
        result == admin_check(env@, caller@),
{
    if env.admin_is(caller) {
        Ok(())
    } else {
        Err(AdminError::Unauthorized)
    }
}

/// Whether `account` holds `role`.
pub fn has_role(env: &Deployment, role: Symbol, account: Address) -> (granted: bool)
    ensures
        granted == holds_role(env@, role@, account@),
{
    env.is_granted(&role, &account)
}

/// Grants `role` to `account` and records `RoleGranted`, for the
/// administrator; otherwise refuses and changes nothing.
pub fn grant_role(env: &mut Deployment, caller: Address, role: Symbol, account: Address) -> (result:
    Result<(), AdminError>)
    ensures
        (final(env)@, result) == grant_role_step(old(env)@, caller@, role@, account@),
{
    if require_admin(env, &caller).is_err() {
        return Err(AdminError::Unauthorized);
    }
    env.put_grant(role.clone(), account.clone());
    env.emit(Event::RoleGranted { role, account });
    Ok(())
}

/// Takes `role` from `account` and records `RoleRevoked`, for the
/// administrator; otherwise refuses and changes nothing.
pub fn revoke_role(env: &mut Deployment, caller: Address, role: Symbol, account: Address) -> (result:
    Result<(), AdminError>)
    ensures
        (final(env)@, result) == revoke_role_step(old(env)@, caller@, role@, account@),
{
    if require_admin(env, &caller).is_err() {
        return Err(AdminError::Unauthorized);
    }
    env.remove_grant(&role, &account);
    env.emit(Event::RoleRevoked { role, account });
    Ok(())
}

/// Succeeds exactly for the administrator and for the holders of `role`.
pub fn require_role_or_admin(env: &Deployment, caller: &Address, role: Symbol) -> (result: Result<
    (),
    AdminError,
>)
    ensures
        result == role_or_admin_check(env@, caller@, role@),
{
    if env.admin_is(caller) || env.is_granted(&role, caller) {
        Ok(())
    } else {
        Err(AdminError::Unauthorized)
    }
}

/// While there is no administrator, naming one needs no caller and always
/// succeeds; once there is one, naming another without a caller is refused
/// and changes nothing.
pub proof fn lemma_first_admin_needs_no_caller(
    state: DeploymentView,
    first: Seq<char>,
    second: Seq<char>,
)
    requires
        state.admin is None,
    ensures
        ({
            let (named, first_result) = set_admin_step(state, first, None);
            let (after, second_result) = set_admin_step(named, second, None);
            &&& first_result == Ok::<(), AdminError>(())
            &&& named.admin == Some(first)
            &&& second_result == Err::<(), AdminError>(AdminError::Unauthorized)
            &&& after == named
        }),
{
}

/// Under an administrator, naming a new one succeeds exactly when the caller
/// is that administrator; a refusal is `Unauthorized` and changes nothing.
pub proof fn lemma_admin_transfer_needs_current_admin(
    state: DeploymentView,
    caller: Seq<char>,
    new_admin: Seq<char>,
)
    requires
        state.admin is Some,
    ensures
        ({
            let (after, result) = set_admin_step(state, new_admin, Some(caller));
            &&& result is Ok <==> state.admin == Some(caller)
            &&& result is Ok ==> after.admin == Some(new_admin)
            &&& result is Err ==> result == Err::<(), AdminError>(AdminError::Unauthorized) && after
                == state
        }),
{
}

/// A successful `set_admin` touches nothing but the administrator and the
/// event log, to which it appends exactly one `AdminChanged`.
pub proof fn lemma_set_admin_records_one_event(
    state: DeploymentView,
    new_admin: Seq<char>,
    caller: Option<Seq<char>>,
)
    ensures
        ({
            let (after, result) = set_admin_step(state, new_admin, caller);
            result is Ok ==> {
                &&& after.events == state.events.push(EventView::AdminChanged { new_admin })
                &&& after.events.last().topic() == "admin_changed"@
                &&& after.roles == state.roles
                &&& after.risk_params == state.risk_params
            }
        }),
{
}

/// Granting and revoking are refused to everyone but the administrator, and
/// a refusal changes nothing.
pub proof fn lemma_role_changes_need_admin(
    state: DeploymentView,
    caller: Seq<char>,
    role: Seq<char>,
    account: Seq<char>,
)
    requires
        !is_admin(state, caller),
    ensures
        grant_role_step(state, caller, role, account) == (
            state,
            Err::<(), AdminError>(AdminError::Unauthorized),
        ),
        revoke_role_step(state, caller, role, account) == (
            state,
            Err::<(), AdminError>(AdminError::Unauthorized),
        ),
{
}

/// For the administrator granting and revoking always succeed; afterwards
/// the account holds the role, or no longer holds it, and every other entry
/// of the registry is as it was.
pub proof fn lemma_has_role_reflects_latest_call(
    state: DeploymentView,
    caller: Seq<char>,
    role: Seq<char>,
    account: Seq<char>,
)
    requires
        is_admin(state, caller),
    ensures
        ({
            let (granted, grant_result) = grant_role_step(state, caller, role, account);
            let (revoked, revoke_result) = revoke_role_step(state, caller, role, account);
            &&& grant_result == Ok::<(), AdminError>(())
            &&& revoke_result == Ok::<(), AdminError>(())
            &&& holds_role(granted, role, account)
            &&& !holds_role(revoked, role, account)
            &&& forall|r: Seq<char>, a: Seq<char>|
                (r, a) != (role, account) ==> {
                    &&& #[trigger] holds_role(granted, r, a) == holds_role(state, r, a)
                    &&& #[trigger] holds_role(revoked, r, a) == holds_role(state, r, a)
                }
        }),
{
}

/// The role-or-administrator guard lets the administrator through, and every
/// holder of the role, and nobody else.
pub proof fn lemma_role_or_admin_guard(state: DeploymentView, caller: Seq<char>, role: Seq<char>)
    ensures
        is_admin(state, caller) ==> role_or_admin_check(state, caller, role) == Ok::<
            (),
            AdminError,
        >(()),
        holds_role(state, role, caller) ==> role_or_admin_check(state, caller, role) == Ok::<
            (),
            AdminError,
        >(()),
        !is_admin(state, caller) && !holds_role(state, role, caller) ==> role_or_admin_check(
            state,
            caller,
            role,
        ) == Err::<(), AdminError>(AdminError::Unauthorized),
{
}

} // verus!

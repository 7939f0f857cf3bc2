//! What a deployment reports of its own changes.

use crate::params::RiskParameters;
use crate::types::{Address, Symbol};
use vstd::prelude::*;

verus! {

/// A change that an operation made, as recorded in the deployment's log.
#[derive(Debug, PartialEq, Eq)]
pub enum Event {
    /// The administrator is now `new_admin`.
    AdminChanged { new_admin: Address },
    /// `account` now holds `role`.
    RoleGranted { role: Symbol, account: Address },
    /// `account` no longer holds `role`.
    RoleRevoked { role: Symbol, account: Address },
    /// The risk parameters are now `params`.
    RiskParamsChanged { params: RiskParameters },
}

/// An event with its addresses and names as character sequences.
pub enum EventView {
    AdminChanged { new_admin: Seq<char> },
    RoleGranted { role: Seq<char>, account: Seq<char> },
    RoleRevoked { role: Seq<char>, account: Seq<char> },
    RiskParamsChanged { params: RiskParameters },
}

impl EventView {
    /// The name under which observers receive the event.
    pub open spec fn topic(self) -> Seq<char> {
        match self {
            EventView::AdminChanged { .. } => "admin_changed"@,
            EventView::RoleGranted { .. } => "role_granted"@,
            EventView::RoleRevoked { .. } => "role_revoked"@,
            EventView::RiskParamsChanged { .. } => "risk_params_changed"@,
        }
    }
}

impl View for Event {
    type V = EventView;

    open spec fn view(&self) -> EventView {
        match *self {
            Event::AdminChanged { new_admin } => EventView::AdminChanged { new_admin: new_admin@ },
            Event::RoleGranted { role, account } => EventView::RoleGranted {
                role: role@,
                account: account@,
            },
            Event::RoleRevoked { role, account } => EventView::RoleRevoked {
                role: role@,
                account: account@,
            },
            Event::RiskParamsChanged { params } => EventView::RiskParamsChanged { params },
        }
    }
}

impl Clone for Event {
    fn clone(&self) -> (copy: Event)
        ensures
            copy@ == self@,
    {
        match self {
            Event::AdminChanged { new_admin } => Event::AdminChanged {
                new_admin: new_admin.clone(),
            },
            Event::RoleGranted { role, account } => Event::RoleGranted {
                role: role.clone(),
                account: account.clone(),
            },
            Event::RoleRevoked { role, account } => Event::RoleRevoked {
                role: role.clone(),
                account: account.clone(),
            },
            Event::RiskParamsChanged { params } => Event::RiskParamsChanged { params: *params },
        }
    }
}

impl Event {
    /// The topic of the event: the first element of what observers receive.
    pub fn topic(&self) -> (topic: Symbol)
        ensures
            topic@ == self@.topic(),
    {
        match self {
            Event::AdminChanged { .. } => Symbol::new("admin_changed"),
            Event::RoleGranted { .. } => Symbol::new("role_granted"),
            Event::RoleRevoked { .. } => Symbol::new("role_revoked"),
            Event::RiskParamsChanged { .. } => Symbol::new("risk_params_changed"),
        }
    }
}

} // verus!

//! The persistent state of one deployment.
//!
//! A deployment owns three slots (the administrator, the role registry and
//! the risk parameters) and an append-only log of the events that its
//! operations recorded. The operations themselves live in `admin` and
//! `risk_management`; this module only reads and writes the slots.

use crate::events::{Event, EventView};
use crate::params::RiskParameters;
use crate::types::{Address, Symbol};
use vstd::prelude::*;

verus! {

/// The state of a deployment, as specifications see it.
pub struct DeploymentView {
    /// The administrator, once one has been set.
    pub admin: Option<Seq<char>>,
    /// The pairs of role and account that are currently granted.
    pub roles: Set<(Seq<char>, Seq<char>)>,
    /// The risk parameters, once initialized.
    pub risk_params: Option<RiskParameters>,
    /// Every event recorded so far, oldest first.
    pub events: Seq<EventView>,
}

impl DeploymentView {
    /// The state before any operation.
    pub open spec fn initial() -> DeploymentView {
        DeploymentView {
            admin: None,
            roles: Set::empty(),
            risk_params: None,
            events: Seq::empty(),
        }
    }

    /// What holds of every state that a deployment can be in: stored
    /// parameters are valid and only exist under an administrator.
    pub open spec fn valid(self) -> bool {
        &&& self.roles.finite()
        &&& self.risk_params matches Some(params) ==> params.valid() && self.admin is Some
    }
}

/// One entry of the role registry: `account` holds `role`.
pub struct RoleGrant {
    pub role: Symbol,
    pub account: Address,
}

impl RoleGrant {
    /// The registry key of the entry.
    pub open spec fn key(self) -> (Seq<char>, Seq<char>) {
        (self.role@, self.account@)
    }
}

/// The view of an optional address.
pub open spec fn address_view(address: Option<Address>) -> Option<Seq<char>> {
    match address {
        Some(a) => Some(a@),
        None => None,
    }
}

/// The views of a sequence of events.
pub open spec fn event_views(events: Seq<Event>) -> Seq<EventView> {
    events.map_values(|e: Event| e@)
}

/// The keys of a sequence of registry entries.
pub open spec fn grant_keys(grants: Seq<RoleGrant>) -> Set<(Seq<char>, Seq<char>)> {
    Set::new(
        |k: (Seq<char>, Seq<char>)|
            exists|i: int| 0 <= i < grants.len() && #[trigger] grants[i].key() == k,
    )
}

/// Whether no two entries of the sequence have the same key.
pub open spec fn distinct_keys(grants: Seq<RoleGrant>) -> bool {
    forall|i: int, j: int|
        0 <= i < j < grants.len() ==> #[trigger] grants[i].key() != #[trigger] grants[j].key()
}

/// Appending an entry adds its key.
proof fn lemma_keys_after_push(grants: Seq<RoleGrant>, entry: RoleGrant)
    ensures
        grant_keys(grants.push(entry)) == grant_keys(grants).insert(entry.key()),
{
    let longer = grants.push(entry);
    assert forall|k: (Seq<char>, Seq<char>)| grant_keys(grants).insert(entry.key()).contains(k)
        implies grant_keys(longer).contains(k) by {
        if k == entry.key() {
            assert(longer[grants.len() as int].key() == k);
        } else {
            let i = choose|i: int| 0 <= i < grants.len() && #[trigger] grants[i].key() == k;
            assert(longer[i].key() == k);
        }
    }
    assert forall|k: (Seq<char>, Seq<char>)| grant_keys(longer).contains(k)
        implies grant_keys(grants).insert(entry.key()).contains(k) by {
        let i = choose|i: int| 0 <= i < longer.len() && #[trigger] longer[i].key() == k;
        if i < grants.len() {
            assert(grants[i].key() == k);
        }
    }
    assert(grant_keys(longer) =~= grant_keys(grants).insert(entry.key()));
}

/// Where no key occurs twice, taking an entry out takes out its key and
/// leaves the others distinct.
proof fn lemma_keys_after_remove(grants: Seq<RoleGrant>, place: int)
    requires
        distinct_keys(grants),
        0 <= place < grants.len(),
    ensures
        grant_keys(grants.remove(place)) == grant_keys(grants).remove(grants[place].key()),
        distinct_keys(grants.remove(place)),
{
    let shorter = grants.remove(place);
    let gone = grants[place].key();
    assert forall|k: (Seq<char>, Seq<char>)| grant_keys(grants).remove(gone).contains(k)
        implies grant_keys(shorter).contains(k) by {
        let j = choose|j: int| 0 <= j < grants.len() && #[trigger] grants[j].key() == k;
        if j < place {
            assert(shorter[j].key() == k);
        } else {
            assert(shorter[j - 1].key() == k);
        }
    }
    assert forall|k: (Seq<char>, Seq<char>)| grant_keys(shorter).contains(k)
        implies grant_keys(grants).remove(gone).contains(k) by {
        let j = choose|j: int| 0 <= j < shorter.len() && #[trigger] shorter[j].key() == k;
        if j < place {
            assert(grants[j].key() == k);
        } else {
            assert(grants[j + 1].key() == k);
        }
    }
    assert(grant_keys(shorter) =~= grant_keys(grants).remove(gone));
    assert forall|i: int, j: int| 0 <= i < j < shorter.len() implies #[trigger] shorter[i].key()
        != #[trigger] shorter[j].key() by {
        let from_i = if i < place { i } else { i + 1 };
        let from_j = if j < place { j } else { j + 1 };
        assert(shorter[i] == grants[from_i]);
        assert(shorter[j] == grants[from_j]);
    }
}

/// The keys of finitely many entries are finitely many.
proof fn lemma_keys_finite(grants: Seq<RoleGrant>)
    ensures
        grant_keys(grants).finite(),
    decreases grants.len(),
{
    if grants.len() == 0 {
        assert(grant_keys(grants) =~= Set::empty());
    } else {
        lemma_keys_finite(grants.drop_last());
        lemma_keys_after_push(grants.drop_last(), grants.last());
        assert(grants.drop_last().push(grants.last()) =~= grants);
    }
}

/// The state of one deployment.
pub struct Deployment {
    admin: Option<Address>,
    grants: Vec<RoleGrant>,
    risk_params: Option<RiskParameters>,
    events: Vec<Event>,
}

impl View for Deployment {
    type V = DeploymentView;

    closed spec fn view(&self) -> DeploymentView {
        DeploymentView {
            admin: address_view(self.admin),
            roles: grant_keys(self.grants@),
            risk_params: self.risk_params,
            events: event_views(self.events@),
        }
    }
}

impl Deployment {
    #[verifier::type_invariant]
    spec fn well_formed(&self) -> bool {
        &&& distinct_keys(self.grants@)
        &&& self.risk_params matches Some(params) ==> params.valid() && self.admin is Some
    }

    /// A deployment on which nothing has happened yet.
    pub fn new() -> (deployment: Deployment)
        ensures
            deployment@ == DeploymentView::initial(),
    {
        let deployment = Deployment {
            admin: None,
            grants: Vec::new(),
            risk_params: None,
            events: Vec::new(),
        };
        assert(deployment@.roles =~= Set::empty());
        assert(deployment@.events =~= Seq::empty());
        deployment
    }

    /// A deployment whose slots hold what was saved of an earlier one, with an
    /// empty event log. There is none where the saved risk parameters are
    /// not valid, or come without an administrator.
    pub fn restore(
        admin: Option<Address>,
        grants: Vec<RoleGrant>,
        risk_params: Option<RiskParameters>,
    ) -> (restored: Option<Deployment>)
        ensures
            restored is Some <==> (risk_params matches Some(params) ==> params.valid() && admin
                is Some),
            restored matches Some(deployment) ==> deployment@ == (DeploymentView {
                admin: address_view(admin),
                roles: grant_keys(grants@),
                risk_params,
                events: Seq::empty(),
            }),
            restored matches Some(deployment) ==> deployment@.valid(),
    {
        if let Some(params) = risk_params {
            if !params.is_valid() || admin.is_none() {
                return None;
            }
        }
        let mut deployment = Deployment {
            admin,
            grants: Vec::new(),
            risk_params,
            events: Vec::new(),
        };
        assert(grant_keys(deployment.grants@) =~= grant_keys(grants@.take(0)));
        assert(deployment@.events =~= Seq::empty());
        let mut i: usize = 0;
        while i < grants.len()
            invariant
                i <= grants@.len(),
                deployment@ == (DeploymentView {
                    admin: address_view(admin),
                    roles: grant_keys(grants@.take(i as int)),
                    risk_params,
                    events: Seq::empty(),
                }),
            decreases grants@.len() - i,
        {
            let entry = &grants[i];
            deployment.put_grant(entry.role.clone(), entry.account.clone());
            proof {
                lemma_keys_after_push(grants@.take(i as int), grants@[i as int]);
                assert(grants@.take(i as int).push(grants@[i as int]) =~= grants@.take(i + 1));
            }
            i += 1;
        }
        assert(grants@.take(i as int) =~= grants@);
        proof {
            lemma_keys_finite(grants@);
        }
        Some(deployment)
    }

    /// The administrator slot.
    pub fn admin(&self) -> (admin: Option<Address>)
        ensures
            address_view(admin) == self@.admin,
    {
        match &self.admin {
            Some(a) => Some(a.clone()),
            None => None,
        }
    }

    /// Whether the administrator slot holds `account`.
    pub fn admin_is(&self, account: &Address) -> (same: bool)
        ensures
            same == (self@.admin == Some(account@)),
    {
        match &self.admin {
            Some(a) => *a == *account,
            None => false,
        }
    }

    /// The risk parameter slot.
    pub fn risk_params(&self) -> (params: Option<RiskParameters>)
        ensures
            params == self@.risk_params,
            self@.valid(),
    {
        proof {
            use_type_invariant(self);
            lemma_keys_finite(self.grants@);
        }
        self.risk_params
    }

    /// The event log, oldest first.
    pub fn events(&self) -> (events: &Vec<Event>)
        ensures
            event_views(events@) == self@.events,
    {
        &self.events
    }

    /// Whether the registry holds `role` for `account`.
    pub fn is_granted(&self, role: &Symbol, account: &Address) -> (granted: bool)
        ensures
            granted == self@.roles.contains((role@, account@)),
    {
        self.find_grant(role, account).is_some()
    }

    /// The place of the entry for `role` and `account`, if there is one.
    fn find_grant(&self, role: &Symbol, account: &Address) -> (place: Option<usize>)
        ensures
            match place {
                Some(i) => i < self.grants@.len() && self.grants@[i as int].key() == (
                    role@,
                    account@,
                ),
                None => !self@.roles.contains((role@, account@)),
            },
            place is Some ==> self@.roles.contains((role@, account@)),
    {
        let mut i: usize = 0;
        while i < self.grants.len()
            invariant
                i <= self.grants@.len(),
                forall|j: int| 0 <= j < i ==> #[trigger] self.grants@[j].key() != (role@, account@),
            decreases self.grants@.len() - i,
        {
            if self.grants[i].role == *role && self.grants[i].account == *account {
                assert(self.grants@[i as int].key() == (role@, account@));
                return Some(i);
            }
            i += 1;
        }
        None
    }

    /// Writes the administrator slot.
    pub(crate) fn put_admin(&mut self, admin: Address)
        ensures
            final(self)@ == (DeploymentView { admin: Some(admin@), ..old(self)@ }),
    {
        proof {
            use_type_invariant(&*self);
        }
        self.admin = Some(admin);
    }

    /// Writes the risk parameter slot.
    pub(crate) fn put_risk_params(&mut self, params: RiskParameters)
        requires
            params.valid(),
            old(self)@.admin is Some,
        ensures
            final(self)@ == (DeploymentView { risk_params: Some(params), ..old(self)@ }),
    {
        proof {
            use_type_invariant(&*self);
        }
        self.risk_params = Some(params);
    }

    /// Appends to the event log.
    pub(crate) fn emit(&mut self, event: Event)
        ensures
            final(self)@ == (DeploymentView {
                events: old(self)@.events.push(event@),
                ..old(self)@
            }),
    {
        proof {
            use_type_invariant(&*self);
        }
        let mut events: Vec<Event> = Vec::new();
        std::mem::swap(&mut events, &mut self.events);
        events.push(event);
        self.events = events;
        assert(event_views(self.events@) =~= event_views(old(self).events@).push(event@));
    }

    /// Enters `role` for `account` in the registry.
    pub(crate) fn put_grant(&mut self, role: Symbol, account: Address)
        ensures
            final(self)@ == (DeploymentView {
                roles: old(self)@.roles.insert((role@, account@)),
                ..old(self)@
            }),
    {
        proof {
            use_type_invariant(&*self);
        }
        if self.find_grant(&role, &account).is_none() {
            let ghost before = self.grants@;
            let entry = RoleGrant { role, account };
            let mut grants: Vec<RoleGrant> = Vec::new();
            std::mem::swap(&mut grants, &mut self.grants);
            grants.push(entry);
            self.grants = grants;
            proof {
                lemma_keys_after_push(before, entry);
            }
        } else {
            assert(self@.roles =~= self@.roles.insert((role@, account@)));
        }
    }

    /// Takes `role` for `account` out of the registry.
    pub(crate) fn remove_grant(&mut self, role: &Symbol, account: &Address)
        ensures
            final(self)@ == (DeploymentView {
                roles: old(self)@.roles.remove((role@, account@)),
                ..old(self)@
            }),
    {
        proof {
            use_type_invariant(&*self);
        }
        match self.find_grant(role, account) {
            Some(i) => {
                let mut grants: Vec<RoleGrant> = Vec::new();
                std::mem::swap(&mut grants, &mut self.grants);
                proof {
                    lemma_keys_after_remove(grants@, i as int);
                }
                let _ = grants.remove(i);
                self.grants = grants;
            },
            None => {
                assert(self@.roles =~= self@.roles.remove((role@, account@)));
            },
        }
    }
}

} // verus!

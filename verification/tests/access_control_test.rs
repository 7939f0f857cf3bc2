use stellar_lend::admin::{
    get_admin, grant_role, has_admin, has_role, require_admin, require_role_or_admin, revoke_role,
    set_admin, AdminError,
};
use stellar_lend::deployment::Deployment;
use stellar_lend::events::Event;
use stellar_lend::types::{Address, Symbol};

fn account(name: &str) -> Address {
    Address::new(name)
}

fn with_admin(admin: &Address) -> Deployment {
    let mut env = Deployment::new();
    set_admin(&mut env, admin.clone(), None).unwrap();
    env
}

#[test]
fn fresh_deployment_has_no_admin() {
    let env = Deployment::new();
    assert!(!has_admin(&env));
    assert_eq!(get_admin(&env), None);
    assert!(env.events().is_empty());
}

#[test]
fn nothing_but_naming_an_admin_works_on_a_fresh_deployment() {
    let mut env = Deployment::new();
    let alice = account("alice");
    let role = Symbol::new("minter");
    assert_eq!(
        grant_role(&mut env, alice.clone(), role.clone(), alice.clone()),
        Err(AdminError::Unauthorized)
    );
    assert_eq!(
        revoke_role(&mut env, alice.clone(), role.clone(), alice.clone()),
        Err(AdminError::Unauthorized)
    );
    assert_eq!(require_admin(&env, &alice), Err(AdminError::Unauthorized));
    assert_eq!(
        require_role_or_admin(&env, &alice, role.clone()),
        Err(AdminError::Unauthorized)
    );
    assert!(!has_admin(&env));
    assert!(!has_role(&env, role, alice));
    assert!(env.events().is_empty());
}

#[test]
fn first_admin_needs_no_caller_and_second_is_refused() {
    let mut env = Deployment::new();
    let alice = account("alice");
    let bob = account("bob");
    assert_eq!(set_admin(&mut env, alice.clone(), None), Ok(()));
    assert_eq!(get_admin(&env), Some(alice.clone()));
    assert_eq!(
        set_admin(&mut env, bob, None),
        Err(AdminError::Unauthorized)
    );
    assert_eq!(get_admin(&env), Some(alice));
    assert_eq!(env.events().len(), 1);
}

#[test]
fn caller_is_ignored_while_there_is_no_admin() {
    let mut env = Deployment::new();
    let alice = account("alice");
    let bob = account("bob");
    assert_eq!(set_admin(&mut env, alice.clone(), Some(bob)), Ok(()));
    assert_eq!(get_admin(&env), Some(alice));
}

#[test]
fn transfer_succeeds_only_for_the_current_admin() {
    let alice = account("alice");
    let bob = account("bob");
    let carol = account("carol");
    let mut env = with_admin(&alice);

    assert_eq!(
        set_admin(&mut env, carol.clone(), Some(bob.clone())),
        Err(AdminError::Unauthorized)
    );
    assert_eq!(get_admin(&env), Some(alice.clone()));
    assert_eq!(env.events().len(), 1);

    assert_eq!(set_admin(&mut env, bob.clone(), Some(alice.clone())), Ok(()));
    assert_eq!(get_admin(&env), Some(bob.clone()));

    // The former admin has lost the capability.
    assert_eq!(require_admin(&env, &alice), Err(AdminError::Unauthorized));
    assert_eq!(
        set_admin(&mut env, carol, Some(alice)),
        Err(AdminError::Unauthorized)
    );
    assert_eq!(get_admin(&env), Some(bob));
}

#[test]
fn admin_may_hand_over_to_itself() {
    let alice = account("alice");
    let mut env = with_admin(&alice);
    assert_eq!(set_admin(&mut env, alice.clone(), Some(alice.clone())), Ok(()));
    assert_eq!(get_admin(&env), Some(alice));
    assert_eq!(env.events().len(), 2);
}

#[test]
fn admin_changed_event_carries_the_new_admin() {
    let alice = account("alice");
    let bob = account("bob");
    let mut env = with_admin(&alice);
    set_admin(&mut env, bob.clone(), Some(alice.clone())).unwrap();
    assert_eq!(
        env.events().as_slice(),
        &[
            Event::AdminChanged { new_admin: alice },
            Event::AdminChanged { new_admin: bob },
        ]
    );
}

#[test]
fn refused_role_changes_leave_the_registry_alone() {
    let alice = account("alice");
    let bob = account("bob");
    let carol = account("carol");
    let role = Symbol::new("minter");
    let mut env = with_admin(&alice);
    grant_role(&mut env, alice.clone(), role.clone(), carol.clone()).unwrap();
    let events_before = env.events().len();

    assert_eq!(
        revoke_role(&mut env, bob.clone(), role.clone(), carol.clone()),
        Err(AdminError::Unauthorized)
    );
    assert!(has_role(&env, role.clone(), carol.clone()));
    assert_eq!(
        grant_role(&mut env, bob.clone(), role.clone(), bob.clone()),
        Err(AdminError::Unauthorized)
    );
    assert!(!has_role(&env, role.clone(), bob.clone()));
    // Holding a role does not let its holder grant it.
    assert_eq!(
        grant_role(&mut env, carol.clone(), role.clone(), bob.clone()),
        Err(AdminError::Unauthorized)
    );
    assert!(!has_role(&env, role, bob));
    assert_eq!(env.events().len(), events_before);
}

#[test]
fn has_role_reflects_the_latest_call() {
    let alice = account("alice");
    let bob = account("bob");
    let role = Symbol::new("minter");
    let mut env = with_admin(&alice);

    assert_eq!(grant_role(&mut env, alice.clone(), role.clone(), bob.clone()), Ok(()));
    assert_eq!(grant_role(&mut env, alice.clone(), role.clone(), bob.clone()), Ok(()));
    assert!(has_role(&env, role.clone(), bob.clone()));
    assert_eq!(revoke_role(&mut env, alice.clone(), role.clone(), bob.clone()), Ok(()));
    assert!(!has_role(&env, role.clone(), bob.clone()));
    assert_eq!(revoke_role(&mut env, alice.clone(), role.clone(), bob.clone()), Ok(()));
    assert!(!has_role(&env, role.clone(), bob.clone()));
    assert_eq!(grant_role(&mut env, alice.clone(), role.clone(), bob.clone()), Ok(()));
    assert!(has_role(&env, role, bob));
}

#[test]
fn a_grant_is_for_one_role_and_one_account() {
    let alice = account("alice");
    let bob = account("bob");
    let carol = account("carol");
    let minter = Symbol::new("minter");
    let pauser = Symbol::new("pauser");
    let mut env = with_admin(&alice);

    grant_role(&mut env, alice.clone(), minter.clone(), bob.clone()).unwrap();
    grant_role(&mut env, alice.clone(), pauser.clone(), carol.clone()).unwrap();
    assert!(has_role(&env, minter.clone(), bob.clone()));
    assert!(!has_role(&env, pauser.clone(), bob.clone()));
    assert!(!has_role(&env, minter.clone(), carol.clone()));
    assert!(has_role(&env, pauser.clone(), carol.clone()));
    // The admin holds no role by being admin.
    assert!(!has_role(&env, minter.clone(), alice.clone()));

    revoke_role(&mut env, alice.clone(), minter.clone(), bob.clone()).unwrap();
    assert!(!has_role(&env, minter, bob));
    assert!(has_role(&env, pauser, carol));
}

#[test]
fn role_events_carry_role_and_account() {
    let alice = account("alice");
    let bob = account("bob");
    let role = Symbol::new("oracle_admin");
    let mut env = with_admin(&alice);
    grant_role(&mut env, alice.clone(), role.clone(), bob.clone()).unwrap();
    revoke_role(&mut env, alice.clone(), role.clone(), bob.clone()).unwrap();
    assert_eq!(
        env.events().as_slice(),
        &[
            Event::AdminChanged { new_admin: alice },
            Event::RoleGranted { role: role.clone(), account: bob.clone() },
            Event::RoleRevoked { role, account: bob },
        ]
    );
}

#[test]
fn role_or_admin_guard() {
    let alice = account("alice");
    let bob = account("bob");
    let carol = account("carol");
    let oracle = Symbol::new("oracle_admin");
    let minter = Symbol::new("minter");
    let mut env = with_admin(&alice);
    grant_role(&mut env, alice.clone(), oracle.clone(), bob.clone()).unwrap();

    assert_eq!(require_role_or_admin(&env, &alice, oracle.clone()), Ok(()));
    assert_eq!(require_role_or_admin(&env, &alice, minter.clone()), Ok(()));
    assert_eq!(require_role_or_admin(&env, &bob, oracle.clone()), Ok(()));
    assert_eq!(
        require_role_or_admin(&env, &bob, minter),
        Err(AdminError::Unauthorized)
    );
    assert_eq!(
        require_role_or_admin(&env, &carol, oracle.clone()),
        Err(AdminError::Unauthorized)
    );

    revoke_role(&mut env, alice.clone(), oracle.clone(), bob.clone()).unwrap();
    assert_eq!(
        require_role_or_admin(&env, &bob, oracle),
        Err(AdminError::Unauthorized)
    );
}

#[test]
fn a_role_outlives_a_change_of_admin() {
    let alice = account("alice");
    let bob = account("bob");
    let carol = account("carol");
    let role = Symbol::new("minter");
    let mut env = with_admin(&alice);
    grant_role(&mut env, alice.clone(), role.clone(), carol.clone()).unwrap();
    set_admin(&mut env, bob.clone(), Some(alice.clone())).unwrap();
    assert!(has_role(&env, role.clone(), carol.clone()));
    assert_eq!(
        revoke_role(&mut env, alice, role.clone(), carol.clone()),
        Err(AdminError::Unauthorized)
    );
    assert_eq!(revoke_role(&mut env, bob, role.clone(), carol.clone()), Ok(()));
    assert!(!has_role(&env, role, carol));
}

#[test]
fn event_topics() {
    let alice = account("alice");
    let role = Symbol::new("minter");
    assert_eq!(
        Event::AdminChanged { new_admin: alice.clone() }.topic(),
        Symbol::new("admin_changed")
    );
    assert_eq!(
        Event::RoleGranted { role: role.clone(), account: alice.clone() }.topic(),
        Symbol::new("role_granted")
    );
    assert_eq!(
        Event::RoleRevoked { role, account: alice }.topic(),
        Symbol::new("role_revoked")
    );
}

#[test]
fn addresses_and_symbols_are_their_text() {
    let alice = account("alice");
    assert_eq!(alice.as_str(), "alice");
    assert_eq!(alice.clone(), alice);
    assert_ne!(alice, account("alicf"));
    let role = Symbol::new("minter");
    assert_eq!(role.as_str(), "minter");
    assert_eq!(role.clone(), role);
    assert_ne!(role, Symbol::new("Minter"));
}

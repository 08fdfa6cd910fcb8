//! The store driven the way its host drives it: the host asks the ink!
//! environment who is calling and hands that identity to the store.

use guardian_policy::{AccountId, Error, GuardianPolicy};
use ink::env::DefaultEnvironment;

struct Accounts {
    alice: AccountId,
    bob: AccountId,
    charlie: AccountId,
    django: AccountId,
    eve: AccountId,
}

fn account(id: ink::primitives::AccountId) -> AccountId {
    let bytes: &[u8; 32] = id.as_ref();
    AccountId(*bytes)
}

/// Starts from a fresh environment, in which Alice is the caller, and names
/// the accounts that ink keeps for testing.
fn default_accounts() -> Accounts {
    ink::env::test::run_test::<DefaultEnvironment, _>(|_| Ok(())).unwrap();
    let named = ink::env::test::default_accounts::<DefaultEnvironment>();
    Accounts {
        alice: account(named.alice),
        bob: account(named.bob),
        charlie: account(named.charlie),
        django: account(named.django),
        eve: account(named.eve),
    }
}

fn set_caller(caller: AccountId) {
    ink::env::test::set_caller::<DefaultEnvironment>(ink::primitives::AccountId::from(caller.0));
}

/// Whom the environment names as the caller right now.
fn caller() -> AccountId {
    account(ink::env::caller::<DefaultEnvironment>())
}

#[test]
fn constructor_works() {
    let accounts = default_accounts();
    let contract = GuardianPolicy::new(accounts.alice, accounts.bob, 1000);
    assert_eq!(contract.get_guardian(), accounts.alice);
    assert_eq!(contract.get_child(), accounts.bob);
    assert_eq!(contract.get_cap(), 1000);
    assert_eq!(contract.is_paused(), false);
}

#[test]
fn default_constructor_works() {
    let accounts = default_accounts();
    set_caller(accounts.alice);
    let contract = GuardianPolicy::default(caller());
    assert_eq!(contract.get_guardian(), accounts.alice);
    assert_eq!(contract.get_child(), accounts.alice);
    assert_eq!(contract.get_cap(), 0);
    assert_eq!(contract.is_paused(), false);
}

#[test]
fn set_allowlist_works() {
    let accounts = default_accounts();
    set_caller(accounts.alice);
    let mut contract = GuardianPolicy::new(accounts.alice, accounts.bob, 1000);

    let allowlist = vec![accounts.charlie, accounts.django];
    assert!(contract.set_allowlist(caller(), allowlist.clone()).is_ok());

    assert!(contract.is_allowed(accounts.charlie));
    assert!(contract.is_allowed(accounts.django));
    assert!(!contract.is_allowed(accounts.eve));
}

#[test]
fn set_allowlist_fails_for_non_guardian() {
    let accounts = default_accounts();
    set_caller(accounts.alice);
    let mut contract = GuardianPolicy::new(accounts.alice, accounts.bob, 1000);

    set_caller(accounts.bob);
    let allowlist = vec![accounts.charlie];
    assert_eq!(contract.set_allowlist(caller(), allowlist), Err(Error::NotGuardian));
}

#[test]
fn set_cap_works() {
    let accounts = default_accounts();
    set_caller(accounts.alice);
    let mut contract = GuardianPolicy::new(accounts.alice, accounts.bob, 1000);

    assert!(contract.set_cap(caller(), 5000).is_ok());
    assert_eq!(contract.get_cap(), 5000);
}

#[test]
fn set_cap_fails_for_non_guardian() {
    let accounts = default_accounts();
    set_caller(accounts.alice);
    let mut contract = GuardianPolicy::new(accounts.alice, accounts.bob, 1000);

    set_caller(accounts.bob);
    assert_eq!(contract.set_cap(caller(), 5000), Err(Error::NotGuardian));
}

#[test]
fn pause_works() {
    let accounts = default_accounts();
    set_caller(accounts.alice);
    let mut contract = GuardianPolicy::new(accounts.alice, accounts.bob, 1000);

    assert!(!contract.is_paused());
    assert!(contract.pause(caller(), true).is_ok());
    assert!(contract.is_paused());
    assert!(contract.pause(caller(), false).is_ok());
    assert!(!contract.is_paused());
}

#[test]
fn pause_fails_for_non_guardian() {
    let accounts = default_accounts();
    set_caller(accounts.alice);
    let mut contract = GuardianPolicy::new(accounts.alice, accounts.bob, 1000);

    set_caller(accounts.bob);
    assert_eq!(contract.pause(caller(), true), Err(Error::NotGuardian));
}

#[test]
fn is_allowed_works() {
    let accounts = default_accounts();
    set_caller(accounts.alice);
    let mut contract = GuardianPolicy::new(accounts.alice, accounts.bob, 1000);

    assert!(!contract.is_allowed(accounts.charlie));

    let allowlist = vec![accounts.charlie];
    contract.set_allowlist(caller(), allowlist).unwrap();

    assert!(contract.is_allowed(accounts.charlie));
    assert!(!contract.is_allowed(accounts.django));
}

#[test]
fn get_cap_works() {
    let accounts = default_accounts();
    set_caller(accounts.alice);
    let contract = GuardianPolicy::new(accounts.alice, accounts.bob, 1000);

    assert_eq!(contract.get_cap(), 1000);
}

#[test]
fn allowlist_can_be_updated() {
    let accounts = default_accounts();
    set_caller(accounts.alice);
    let mut contract = GuardianPolicy::new(accounts.alice, accounts.bob, 1000);

    let allowlist1 = vec![accounts.charlie];
    contract.set_allowlist(caller(), allowlist1).unwrap();
    assert!(contract.is_allowed(accounts.charlie));
    assert!(!contract.is_allowed(accounts.django));

    let allowlist2 = vec![accounts.django, accounts.eve];
    contract.set_allowlist(caller(), allowlist2).unwrap();
    assert!(!contract.is_allowed(accounts.charlie));
    assert!(contract.is_allowed(accounts.django));
    assert!(contract.is_allowed(accounts.eve));
}

#[test]
fn paused_state_changes_correctly() {
    let accounts = default_accounts();
    set_caller(accounts.alice);
    let mut contract = GuardianPolicy::new(accounts.alice, accounts.bob, 1000);

    assert!(!contract.is_paused());

    contract.pause(caller(), true).unwrap();
    assert!(contract.is_paused());

    contract.pause(caller(), true).unwrap();
    assert!(contract.is_paused());

    contract.pause(caller(), false).unwrap();
    assert!(!contract.is_paused());
}

#[test]
fn caller_is_alice_in_a_fresh_environment() {
    let accounts = default_accounts();
    let contract = GuardianPolicy::default(caller());
    assert_eq!(contract.get_guardian(), accounts.alice);
    assert_eq!(contract.get_child(), accounts.alice);
}

#[test]
fn default_follows_the_caller() {
    let accounts = default_accounts();
    set_caller(accounts.bob);
    let contract = GuardianPolicy::default(caller());
    assert_eq!(contract.get_guardian(), accounts.bob);
    assert_eq!(contract.get_child(), accounts.bob);
    assert_ne!(contract.get_guardian(), accounts.alice);
    assert_eq!(contract.get_cap(), 0);
    assert!(!contract.is_paused());
    assert!(!contract.is_allowed(accounts.bob));

    set_caller(accounts.eve);
    let contract = GuardianPolicy::default(caller());
    assert_eq!(contract.get_guardian(), accounts.eve);
}

#[test]
fn the_gate_is_asked_again_on_every_call() {
    let accounts = default_accounts();
    let mut contract = GuardianPolicy::new(accounts.alice, accounts.bob, 1000);

    set_caller(accounts.alice);
    assert!(contract.set_cap(caller(), 1).is_ok());
    set_caller(accounts.bob);
    assert_eq!(contract.set_cap(caller(), 2), Err(Error::NotGuardian));
    set_caller(accounts.alice);
    assert!(contract.set_cap(caller(), 3).is_ok());
    set_caller(accounts.charlie);
    assert_eq!(contract.pause(caller(), true), Err(Error::NotGuardian));
    assert_eq!(contract.get_cap(), 3);
    assert!(!contract.is_paused());
}

#[test]
fn guardian_sets_the_list_and_child_cannot_raise_the_cap() {
    let accounts = default_accounts();
    let mut contract = GuardianPolicy::new(accounts.alice, accounts.bob, 1000);

    set_caller(accounts.alice);
    let announced = contract.set_allowlist(caller(), vec![accounts.charlie, accounts.django]);
    assert!(announced.is_ok());
    assert!(contract.is_allowed(accounts.charlie));
    assert!(!contract.is_allowed(accounts.eve));

    set_caller(accounts.bob);
    assert_eq!(contract.set_cap(caller(), 5000), Err(Error::NotGuardian));
    assert_eq!(contract.get_cap(), 1000);
}

use stake_registry::error::RegistryError;
use stake_registry::keys::Pubkey;
use stake_registry::member::Member;
use stake_registry::relay::relay_completed;
use stake_registry::relay::relay_reconcile;

fn key(n: u64) -> Pubkey {
    Pubkey { w0: n, w1: 0, w2: 0, w3: 0 }
}

fn fresh_member() -> Member {
    Member::new(key(10), key(11), key(1), key(2))
}

#[test]
fn relay_over_ceiling_is_refused_and_changes_nothing() {
    // ceiling 100, vault 500 before the external call, 350 after:
    // 150 moved > 100 approved
    let mut m = fresh_member();
    let before = m;
    assert_eq!(
        relay_completed(&mut m, 100, 500, 350, false),
        Err(RegistryError::InsufficientAmount)
    );
    assert_eq!(m, before);
}

#[test]
fn relay_credits_measured_movement_not_request() {
    // approved 100, but only 50 actually moved: the book follows the vault
    let mut m = fresh_member();
    assert_eq!(relay_completed(&mut m, 100, 500, 450, false), Ok(50));
    assert_eq!(m.books.delegate.balances.deposit, 50);
    assert_eq!(m.books.main.balances.deposit, 0);
}

#[test]
fn relay_exactly_at_ceiling_passes() {
    let mut m = fresh_member();
    assert_eq!(relay_completed(&mut m, 100, 500, 400, true), Ok(100));
    assert_eq!(m.books.delegate.balances.mega_deposit, 100);
}

#[test]
fn reconcile_measures_the_delta() {
    assert_eq!(relay_reconcile(100, 500, 500), Ok(0));
    assert_eq!(relay_reconcile(0, 500, 500), Ok(0));
    assert_eq!(
        relay_reconcile(0, 500, 499),
        Err(RegistryError::InsufficientAmount)
    );
}

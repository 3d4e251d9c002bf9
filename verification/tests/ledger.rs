use stake_registry::error::RegistryError;
use stake_registry::keys::Pubkey;
use stake_registry::member::update_member;
use stake_registry::member::Member;
use stake_registry::member::MemberBooks;
use stake_registry::pool::Basket;
use stake_registry::pool::PoolPrices;

fn key(n: u64) -> Pubkey {
    Pubkey { w0: n, w1: 0, w2: 0, w3: 0 }
}

fn prices(q0: i64, mq0: i64, mq1: i64) -> PoolPrices {
    PoolPrices::new(
        Basket { quantities: vec![q0] },
        Basket { quantities: vec![mq0, mq1] },
    )
}

fn fresh_member() -> Member {
    Member::new(key(10), key(11), key(1), key(2))
}

#[test]
fn new_member_is_empty() {
    let m = fresh_member();
    assert!(m.initialized);
    assert_eq!(m.generation, 0);
    assert_eq!(m.books, MemberBooks::new(key(1), key(2)));
    assert!(m.stake_is_empty());
    assert!(m.books.delegate().balances.is_empty());
    assert_eq!(m.books.main().owner, key(1));
    assert_eq!(m.books.delegate().owner, key(2));
}

#[test]
fn deposit_attributes_by_owner() {
    let mut m = fresh_member();
    m.did_deposit(100, false, key(1));
    m.did_deposit(50, false, key(2));
    m.did_deposit(20, true, key(2));
    assert_eq!(m.books.stake_intent, 150);
    assert_eq!(m.books.mega_stake_intent, 20);
    assert_eq!(m.books.main.balances.deposit, 100);
    assert_eq!(m.books.delegate.balances.deposit, 50);
    assert_eq!(m.books.delegate.balances.mega_deposit, 20);
}

#[test]
fn conservation_over_interleaved_operations() {
    // net deposits: main +100 -30 = 70, delegate +50 +20(mega) -10 = 40 / 20
    let mut m = fresh_member();
    m.did_deposit(100, false, key(1));
    m.did_deposit(50, false, key(2));
    m.did_withdraw(30, false, key(1));
    m.did_deposit(20, true, key(2));
    m.did_withdraw(10, false, key(2));
    assert_eq!(m.books.main.balances.deposit, 70);
    assert_eq!(m.books.delegate.balances.deposit, 40);
    assert_eq!(m.books.delegate.balances.mega_deposit, 20);
    assert_eq!(
        m.books.main.balances.deposit + m.books.delegate.balances.deposit,
        100 + 50 - 30 - 10
    );

    // the same flows in another order land on the same books
    let mut n = fresh_member();
    n.did_deposit(20, true, key(2));
    n.did_deposit(50, false, key(2));
    n.did_withdraw(10, false, key(2));
    n.did_deposit(100, false, key(1));
    n.did_withdraw(30, false, key(1));
    assert_eq!(n.books, m.books);
}

#[test]
fn can_afford_checks_both_classes() {
    let p = prices(2, 1, 3);
    let mut m = fresh_member();
    m.did_deposit(20, false, key(1));
    m.did_deposit(14, true, key(1));
    // 10 primary shares cost 20 primary units
    assert_eq!(m.can_afford(&p, 10, false), Ok(true));
    assert_eq!(
        m.can_afford(&p, 11, false),
        Err(RegistryError::InsufficientStakeIntentBalance)
    );
    // 5 mega shares cost 5 primary + 15 mega units; only 14 mega available
    assert_eq!(
        m.can_afford(&p, 5, true),
        Err(RegistryError::InsufficientStakeIntentBalance)
    );
    assert_eq!(m.can_afford(&p, 4, true), Ok(true));
}

#[test]
fn can_afford_overflow_is_checked_failure() {
    let p = prices(2, 1, 3);
    let m = fresh_member();
    assert_eq!(
        m.can_afford(&p, u64::MAX, false),
        Err(RegistryError::CheckedFailure)
    );
}

#[test]
fn delegate_protection_blocks_non_delegate() {
    // delegate basis 60; member holds only 100 unstaked primary units
    let p = prices(2, 1, 3);
    let mut m = fresh_member();
    m.did_deposit(40, false, key(1));
    m.did_deposit(60, false, key(2));
    assert_eq!(m.books.delegate.balances.deposit, 60);
    // withdrawing 50 to the beneficiary would leave 50 < 60
    assert_eq!(
        m.can_withdraw(&p, 50, false, key(1)),
        Err(RegistryError::InsufficientBalance)
    );
    // withdrawing 40 leaves exactly the delegate's basis
    assert_eq!(m.can_withdraw(&p, 40, false, key(1)), Ok(true));
    // the delegate itself may draw the whole unstaked balance
    assert_eq!(m.can_withdraw(&p, 100, false, key(2)), Ok(true));
    // but nobody can overdraw the unstaked balance
    assert_eq!(
        m.can_withdraw(&p, 101, false, key(2)),
        Err(RegistryError::InsufficientStakeIntentBalance)
    );
}

#[test]
fn can_withdraw_counts_share_worth() {
    // 10 primary shares at 2 units each are worth 20; delegate basis 25
    let p = prices(2, 1, 3);
    let mut m = fresh_member();
    m.books.spt_amount = 10;
    m.did_deposit(25, false, key(2));
    m.did_deposit(10, false, key(1));
    // remaining after withdrawing 30: 20 (shares) + 5 (unstaked) = 25, exactly the basis
    assert_eq!(m.can_withdraw(&p, 30, false, key(1)), Ok(true));
    // one more would eat into the delegate's basis
    assert_eq!(
        m.can_withdraw(&p, 31, false, key(1)),
        Err(RegistryError::InsufficientBalance)
    );
}

#[test]
fn mega_withdrawal_protects_mega_basis() {
    // 4 mega shares worth 12 mega units; delegate mega basis 20
    let p = prices(2, 1, 3);
    let mut m = fresh_member();
    m.books.spt_mega_amount = 4;
    m.did_deposit(20, true, key(2));
    // remaining after 13: 12 + 7 = 19 < 20
    assert_eq!(
        m.can_withdraw(&p, 13, true, key(1)),
        Err(RegistryError::InsufficientBalance)
    );
    assert_eq!(m.can_withdraw(&p, 12, true, key(1)), Ok(true));
}

#[test]
fn share_purchase_moves_exact_basket_cost() {
    let p = prices(2, 1, 3);
    let mut m = fresh_member();
    m.did_deposit(25, false, key(1));
    m.did_deposit(16, true, key(1));
    assert_eq!(m.spt_did_create(&p, 10, false), Ok(()));
    assert_eq!(m.books.spt_amount, 10);
    assert_eq!(m.books.stake_intent, 5);
    assert_eq!(m.spt_did_create(&p, 5, true), Ok(()));
    assert_eq!(m.books.spt_mega_amount, 5);
    assert_eq!(m.books.stake_intent, 0);
    assert_eq!(m.books.mega_stake_intent, 1);
    // deposits are cost bases and are untouched by staking
    assert_eq!(m.books.main.balances.deposit, 25);
    assert_eq!(m.books.main.balances.mega_deposit, 16);
}

#[test]
fn redeem_start_burns_and_end_credits() {
    let p = prices(2, 1, 3);
    let mut m = fresh_member();
    m.did_deposit(20, false, key(1));
    assert_eq!(m.spt_did_create(&p, 10, false), Ok(()));
    m.spt_did_redeem_start(10, false);
    assert_eq!(m.books.spt_amount, 0);
    assert_eq!(m.books.stake_intent, 0);
    m.spt_did_redeem_end(20, 0);
    assert_eq!(m.books.stake_intent, 20);
    assert_eq!(m.books.mega_stake_intent, 0);
}

#[test]
fn slash_burns_without_payout() {
    let mut m = fresh_member();
    m.books.spt_amount = 10;
    m.books.spt_mega_amount = 4;
    m.slash(3, false);
    m.slash(4, true);
    assert_eq!(m.books.spt_amount, 7);
    assert_eq!(m.books.spt_mega_amount, 0);
    assert_eq!(m.books.stake_intent, 0);
}

#[test]
fn update_member_requires_beneficiary_signature() {
    let mut m = fresh_member();
    assert_eq!(
        update_member(&mut m, key(1), false, Some(key(3))),
        Err(RegistryError::Unauthorized)
    );
    assert_eq!(
        update_member(&mut m, key(9), true, Some(key(3))),
        Err(RegistryError::Unauthorized)
    );
    assert_eq!(update_member(&mut m, key(1), true, Some(key(3))), Ok(()));
    assert_eq!(m.books.delegate.owner, key(3));
}

#[test]
fn update_member_refuses_delegate_in_use() {
    let mut m = fresh_member();
    m.did_deposit(5, false, key(2));
    let before = m;
    assert_eq!(
        update_member(&mut m, key(1), true, Some(key(3))),
        Err(RegistryError::DelegateInUse)
    );
    assert_eq!(m, before);
    // with no replacement asked, the update passes and changes nothing
    assert_eq!(update_member(&mut m, key(1), true, None), Ok(()));
    assert_eq!(m, before);
}

use stake_registry::entity::Entity;
use stake_registry::error::RegistryError;
use stake_registry::generation::Generation;
use stake_registry::keys::Pubkey;
use stake_registry::member::Member;
use stake_registry::pool::Basket;
use stake_registry::pool::PoolPrices;
use stake_registry::registrar::Registrar;
use stake_registry::withdrawal::end_stake_withdrawal;
use stake_registry::withdrawal::start_stake_withdrawal;

fn key(n: u64) -> Pubkey {
    Pubkey { w0: n, w1: 0, w2: 0, w3: 0 }
}

fn prices(q0: i64, mq0: i64, mq1: i64) -> PoolPrices {
    PoolPrices::new(
        Basket { quantities: vec![q0] },
        Basket { quantities: vec![mq0, mq1] },
    )
}

fn registrar(timelock: i64) -> Registrar {
    Registrar {
        initialized: true,
        authority: key(100),
        nonce: 0,
        withdrawal_timelock: timelock,
        deactivation_timelock: 20,
        reward_activation_threshold: 0,
        max_stake_per_entity: 1_000_000,
        vault: key(101),
        mega_vault: key(102),
        pool: key(103),
        mega_pool: key(104),
        pool_program_id: key(105),
    }
}

fn member_with_shares(spt: u64, generation: u64) -> Member {
    let mut m = Member::new(key(10), key(11), key(1), key(2));
    m.books.spt_amount = spt;
    m.generation = generation;
    m
}

#[test]
fn start_burns_shares_and_records_unlock() {
    let r = registrar(10);
    let mut m = member_with_shares(10, 0);
    let mut e = Entity::new(key(10), key(20));
    e.spt_amount = 10;
    let pw = start_stake_withdrawal(&mut m, &mut e, &r, None, key(30), key(11), 10, false, 100)
        .unwrap();
    assert_eq!(m.books.spt_amount, 0);
    assert_eq!(e.spt_amount, 0);
    assert!(pw.initialized);
    assert!(!pw.burned);
    assert_eq!(pw.member, key(30));
    assert_eq!(pw.entity, key(11));
    assert_eq!(pw.spt_amount, 10);
    assert_eq!(pw.start_ts, 100);
    assert_eq!(pw.end_ts, 110);
    assert_eq!(pw.generation, 0);
}

#[test]
fn start_refuses_more_shares_than_held() {
    let r = registrar(10);
    let mut m = member_with_shares(10, 0);
    let mut e = Entity::new(key(10), key(20));
    e.spt_amount = 10;
    let (m0, e0) = (m, e);
    assert_eq!(
        start_stake_withdrawal(&mut m, &mut e, &r, None, key(30), key(11), 11, false, 100),
        Err(RegistryError::InsufficientStakeBalance)
    );
    assert_eq!(m, m0);
    assert_eq!(e, e0);
}

#[test]
fn stale_start_needs_matching_snapshot() {
    let r = registrar(10);
    let mut m = member_with_shares(10, 1);
    let mut e = Entity::new(key(10), key(20));
    e.generation = 2;
    e.spt_amount = 10;
    // no snapshot at all
    assert_eq!(
        start_stake_withdrawal(&mut m, &mut e, &r, None, key(30), key(11), 10, false, 100),
        Err(RegistryError::GenerationMismatch)
    );
    // snapshot for the wrong generation
    let wrong = Generation::new(key(11), 0, prices(2, 1, 3));
    assert_eq!(
        start_stake_withdrawal(
            &mut m,
            &mut e,
            &r,
            Some(&wrong),
            key(30),
            key(11),
            10,
            false,
            100
        ),
        Err(RegistryError::GenerationMismatch)
    );
    // the matching snapshot admits the withdrawal
    let snap = Generation::new(key(11), 1, prices(2, 1, 3));
    assert!(start_stake_withdrawal(
        &mut m,
        &mut e,
        &r,
        Some(&snap),
        key(30),
        key(11),
        10,
        false,
        100
    )
    .is_ok());
}

#[test]
fn timelock_gates_the_payout_exactly_once() {
    let live = prices(2, 1, 3);
    let r = registrar(10);
    let mut m = member_with_shares(10, 0);
    let mut e = Entity::new(key(10), key(20));
    e.spt_amount = 10;
    let mut pw = start_stake_withdrawal(&mut m, &mut e, &r, None, key(30), key(11), 10, false, 100)
        .unwrap();
    // one tick early: refused, nothing changes
    let m0 = m;
    assert_eq!(
        end_stake_withdrawal(&mut m, &mut pw, &e, &live, None, 109),
        Err(RegistryError::TimelockNotElapsed)
    );
    assert_eq!(m, m0);
    assert!(!pw.burned);
    // exactly at the unlock time: pays 10 shares at 2 units
    assert_eq!(
        end_stake_withdrawal(&mut m, &mut pw, &e, &live, None, 110),
        Ok((20, 0))
    );
    assert!(pw.burned);
    assert_eq!(m.books.stake_intent, 20);
    // a second attempt against the same record always fails
    let m1 = m;
    assert_eq!(
        end_stake_withdrawal(&mut m, &mut pw, &e, &live, None, 500),
        Err(RegistryError::WithdrawalAlreadyCompleted)
    );
    assert_eq!(m, m1);
}

#[test]
fn stale_withdrawal_pays_frozen_snapshot_basket() {
    // Entity at generation 1 had basket [2]; it deactivates (snapshot
    // frozen), reactivates as generation 2 with live basket [3]. A member
    // still at generation 1 with 10 shares must be paid 10 * 2 = 20, not
    // 10 * 3 = 30.
    let r = registrar(10);
    let mut m = member_with_shares(10, 1);
    let mut e = Entity::new(key(10), key(20));
    e.generation = 2;
    e.spt_amount = 10;
    let snap = Generation::new(key(11), 1, prices(2, 0, 0));
    let live = prices(3, 0, 0);
    let mut pw = start_stake_withdrawal(
        &mut m,
        &mut e,
        &r,
        Some(&snap),
        key(30),
        key(11),
        10,
        false,
        100,
    )
    .unwrap();
    assert_eq!(pw.generation, 1);
    assert_eq!(
        end_stake_withdrawal(&mut m, &mut pw, &e, &live, Some(&snap), 110),
        Ok((20, 0))
    );
    assert_eq!(m.books.stake_intent, 20);
}

#[test]
fn current_generation_pays_live_basket() {
    let r = registrar(10);
    let mut m = member_with_shares(10, 2);
    let mut e = Entity::new(key(10), key(20));
    e.generation = 2;
    e.spt_amount = 10;
    let live = prices(3, 0, 0);
    let mut pw = start_stake_withdrawal(&mut m, &mut e, &r, None, key(30), key(11), 10, false, 100)
        .unwrap();
    assert_eq!(
        end_stake_withdrawal(&mut m, &mut pw, &e, &live, None, 110),
        Ok((30, 0))
    );
}

#[test]
fn stale_end_without_snapshot_is_refused() {
    let r = registrar(10);
    let mut m = member_with_shares(10, 1);
    let mut e = Entity::new(key(10), key(20));
    e.generation = 1;
    e.spt_amount = 10;
    let live = prices(3, 0, 0);
    let mut pw = start_stake_withdrawal(&mut m, &mut e, &r, None, key(30), key(11), 10, false, 100)
        .unwrap();
    // the entity moves on before the member ends its withdrawal
    e.generation = 2;
    let m0 = m;
    assert_eq!(
        end_stake_withdrawal(&mut m, &mut pw, &e, &live, None, 110),
        Err(RegistryError::GenerationMismatch)
    );
    assert_eq!(m, m0);
    assert!(!pw.burned);
}

#[test]
fn mega_withdrawal_pays_both_assets() {
    let r = registrar(10);
    let mut m = Member::new(key(10), key(11), key(1), key(2));
    m.books.spt_mega_amount = 5;
    let mut e = Entity::new(key(10), key(20));
    e.spt_mega_amount = 5;
    let live = prices(2, 1, 3);
    let mut pw = start_stake_withdrawal(&mut m, &mut e, &r, None, key(30), key(11), 5, true, 100)
        .unwrap();
    assert_eq!(
        end_stake_withdrawal(&mut m, &mut pw, &e, &live, None, 110),
        Ok((5, 15))
    );
    assert_eq!(m.books.stake_intent, 5);
    assert_eq!(m.books.mega_stake_intent, 15);
}

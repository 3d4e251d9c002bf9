use stake_registry::entity::Entity;
use stake_registry::entity::EntityState;
use stake_registry::error::RegistryError;
use stake_registry::keys::Pubkey;
use stake_registry::member::Member;
use stake_registry::pool::Basket;
use stake_registry::pool::PoolPrices;
use stake_registry::registrar::Registrar;
use stake_registry::stake::stake;
use stake_registry::stake::stake_checks;

fn key(n: u64) -> Pubkey {
    Pubkey { w0: n, w1: 0, w2: 0, w3: 0 }
}

fn prices(q0: i64, mq0: i64, mq1: i64) -> PoolPrices {
    PoolPrices::new(
        Basket { quantities: vec![q0] },
        Basket { quantities: vec![mq0, mq1] },
    )
}

fn registrar(threshold: u64, cap: u64) -> Registrar {
    Registrar {
        initialized: true,
        authority: key(100),
        nonce: 0,
        withdrawal_timelock: 10,
        deactivation_timelock: 20,
        reward_activation_threshold: threshold,
        max_stake_per_entity: cap,
        vault: key(101),
        mega_vault: key(102),
        pool: key(103),
        mega_pool: key(104),
        pool_program_id: key(105),
    }
}

fn funded_member(intent: u64, mega_intent: u64) -> Member {
    let mut m = Member::new(key(10), key(11), key(1), key(2));
    if intent > 0 {
        m.did_deposit(intent, false, key(1));
    }
    if mega_intent > 0 {
        m.did_deposit(mega_intent, true, key(1));
    }
    m
}

#[test]
fn stake_moves_both_ledgers_and_sets_generation() {
    let p = prices(2, 1, 3);
    let r = registrar(0, 1_000_000);
    let mut m = funded_member(20, 0);
    let mut e = Entity::new(key(10), key(20));
    e.generation = 3;
    m.generation = 3;
    assert_eq!(stake(&mut m, &mut e, &r, &p, 10, false), Ok(()));
    assert_eq!(m.books.spt_amount, 10);
    assert_eq!(m.books.stake_intent, 0);
    assert_eq!(m.generation, 3);
    assert_eq!(e.spt_amount, 10);
}

#[test]
fn stale_stake_with_shares_always_fails() {
    let p = prices(2, 1, 3);
    let r = registrar(0, 1_000_000);
    let mut m = funded_member(100, 0);
    m.books.spt_amount = 5;
    m.generation = 1;
    let mut e = Entity::new(key(10), key(20));
    e.generation = 2;
    e.spt_amount = 5;
    let (m0, e0) = (m, e);
    assert_eq!(
        stake(&mut m, &mut e, &r, &p, 10, false),
        Err(RegistryError::StaleStakeNeedsWithdrawal)
    );
    assert_eq!(m, m0);
    assert_eq!(e, e0);
}

#[test]
fn stake_succeeds_after_full_withdrawal_and_adopts_generation() {
    let p = prices(2, 1, 3);
    let r = registrar(0, 1_000_000);
    // shares fully withdrawn: only unstaked balance remains
    let mut m = funded_member(100, 0);
    m.generation = 1;
    let mut e = Entity::new(key(10), key(20));
    e.generation = 2;
    assert_eq!(stake(&mut m, &mut e, &r, &p, 10, false), Ok(()));
    assert_eq!(m.generation, 2);
    assert_eq!(m.books.spt_amount, 10);
}

#[test]
fn stake_requires_activated_entity() {
    let p = prices(2, 1, 3);
    // entity worth 0 < threshold 50
    let r = registrar(50, 1_000_000);
    let mut m = funded_member(100, 0);
    let mut e = Entity::new(key(10), key(20));
    assert_eq!(
        stake(&mut m, &mut e, &r, &p, 10, false),
        Err(RegistryError::EntityNotActivated)
    );
    // an entity with enough staked value passes: 25 shares at 2 units = 50
    e.spt_amount = 25;
    assert_eq!(stake_checks(&m, &e, &r, &p, 10, false), Ok(()));
}

#[test]
fn cap_blocks_over_and_admits_exact() {
    let p = prices(2, 1, 3);
    // entity already worth 2 * 25 = 50; stake of 10 shares is worth 20
    let mut e = Entity::new(key(10), key(20));
    e.spt_amount = 25;
    let m = funded_member(100, 0);
    // cap 69 < 70: refused
    let r = registrar(0, 69);
    assert_eq!(
        stake_checks(&m, &e, &r, &p, 10, false),
        Err(RegistryError::EntityMaxStake)
    );
    // cap exactly 70: admitted
    let r = registrar(0, 70);
    assert_eq!(stake_checks(&m, &e, &r, &p, 10, false), Ok(()));
}

#[test]
fn mega_stake_counts_both_assets_toward_cap() {
    // one mega share is worth 1 + 3 = 4 common units
    let p = prices(2, 1, 3);
    let m = funded_member(10, 30);
    let e = Entity::new(key(10), key(20));
    let r = registrar(0, 39);
    assert_eq!(
        stake_checks(&m, &e, &r, &p, 10, true),
        Err(RegistryError::EntityMaxStake)
    );
    let r = registrar(0, 40);
    assert_eq!(stake_checks(&m, &e, &r, &p, 10, true), Ok(()));
}

#[test]
fn unaffordable_stake_fails_before_anything_else() {
    let p = prices(2, 1, 3);
    let r = registrar(0, 1_000_000);
    let mut m = funded_member(19, 0);
    m.generation = 1;
    m.books.spt_amount = 1;
    let mut e = Entity::new(key(10), key(20));
    e.generation = 2;
    e.spt_amount = 1;
    // 10 shares cost 20 > 19; reported before the stale-generation gate
    assert_eq!(
        stake(&mut m, &mut e, &r, &p, 10, false),
        Err(RegistryError::InsufficientStakeIntentBalance)
    );
}

#[test]
fn entity_lifecycle_and_generation() {
    let mut e = Entity::new(key(10), key(20));
    assert_eq!(e.state, EntityState::Active);
    assert_eq!(e.generation, 0);
    e.mark_pending_deactivation();
    assert_eq!(e.state, EntityState::PendingDeactivation);
    e.mark_inactive();
    assert_eq!(e.state, EntityState::Inactive);
    e.advance_generation();
    assert_eq!(e.generation, 1);
    e.mark_active();
    assert_eq!(e.state, EntityState::Active);
    // reactivation kept the advanced generation
    assert_eq!(e.generation, 1);
}

#[test]
fn entity_worth_is_priced_in_common_units() {
    let p = prices(2, 1, 3);
    let mut e = Entity::new(key(10), key(20));
    e.spt_amount = 7;
    e.spt_mega_amount = 5;
    // 7 * 2 + 5 * (1 + 3) = 34
    assert_eq!(e.amount_equivalent(&p), Ok(34));
    let r = registrar(34, 0);
    assert!(e.meets_activation_requirements(&p, &r));
    let r = registrar(35, 0);
    assert!(!e.meets_activation_requirements(&p, &r));
}

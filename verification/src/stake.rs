use vstd::prelude::*;

use crate::entity::Entity;
use crate::error::RegistryError;
use crate::member::Member;
use crate::pool::lemma_srm_equivalent_nonneg;
use crate::pool::PoolPrices;
use crate::registrar::Registrar;

verus! {

/// What the stake gates check, in order: the member must afford the basket
/// cost; stake from a superseded generation must be fully withdrawn first;
/// only activated entities take stake; and the stake must not push the
/// entity past the per-entity cap.
pub open spec fn spec_stake_checks(
    member: Member,
    entity: Entity,
    registrar: Registrar,
    prices: PoolPrices,
    spt_amount: u64,
    mega: bool,
) -> Result<(), RegistryError> {
    match member.spec_can_afford(prices, spt_amount, mega) {
        Err(e) => Err(e),
        Ok(_) => if member.generation != entity.generation && !(member.books.spt_amount == 0
            && member.books.spt_mega_amount == 0) {
            Err(RegistryError::StaleStakeNeedsWithdrawal)
        } else if entity.spec_amount_equivalent(prices) < registrar.reward_activation_threshold {
            Err(RegistryError::EntityNotActivated)
        } else if prices.spec_srm_equivalent(spt_amount, mega) + entity.spec_amount_equivalent(
            prices,
        ) > registrar.max_stake_per_entity {
            Err(RegistryError::EntityMaxStake)
        } else {
            Ok(())
        },
    }
}

/// Runs every gate a stake request must pass before the pool is invoked.
/// Read-only: the pool conversion and the ledger writes come strictly
/// after all gates pass.
pub fn stake_checks(
    member: &Member,
    entity: &Entity,
    registrar: &Registrar,
    prices: &PoolPrices,
    spt_amount: u64,
    mega: bool,
) -> (r: Result<(), RegistryError>)
    requires
        prices.well_formed(),
    ensures
        r == spec_stake_checks(*member, *entity, *registrar, *prices, spt_amount, mega),
{
    proof {
        lemma_srm_equivalent_nonneg(*prices, spt_amount, mega);
        lemma_srm_equivalent_nonneg(*prices, entity.spt_amount, false);
        lemma_srm_equivalent_nonneg(*prices, entity.spt_mega_amount, true);
    }
    match member.can_afford(prices, spt_amount, mega) {
        Ok(_) => (),
        Err(e) => {
            return Err(e);
        },
    };
    if member.generation != entity.generation {
        if !member.stake_is_empty() {
            return Err(RegistryError::StaleStakeNeedsWithdrawal);
        }
    }
    if !entity.meets_activation_requirements(prices, registrar) {
        return Err(RegistryError::EntityNotActivated);
    }

    // Would this new stake put the entity over the cap? Compared exactly:
    // a worth too large for a 64-bit balance is in particular over the cap.
    let spt_worth = match prices.srm_equivalent(spt_amount, mega) {
        Ok(v) => v,
        Err(_) => {
            return Err(RegistryError::EntityMaxStake);
        },
    };
    let entity_worth = match entity.amount_equivalent(prices) {
        Ok(v) => v,
        Err(_) => {
            return Err(RegistryError::EntityMaxStake);
        },
    };
    if spt_worth as u128 + entity_worth as u128 > registrar.max_stake_per_entity as u128 {
        return Err(RegistryError::EntityMaxStake);
    }
    Ok(())
}

/// Applies the ledger effect of a completed share purchase: the member's
/// generation marker is brought up to the entity's, the member pays the
/// basket cost and receives the shares, and the entity's aggregate grows by
/// the same shares. Nothing is changed when the basket cost overflows.
pub fn stake_transition(
    member: &mut Member,
    entity: &mut Entity,
    prices: &PoolPrices,
    spt_amount: u64,
    mega: bool,
) -> (r: Result<(), RegistryError>)
    requires
        prices.well_formed(),
        prices.basket_cost_ok(spt_amount, mega) ==> old(member).stake_fits(
            *prices,
            spt_amount,
            mega,
        ) && (if mega {
            old(entity).spt_mega_amount + spt_amount <= u64::MAX
        } else {
            old(entity).spt_amount + spt_amount <= u64::MAX
        }),
    ensures
        r is Ok <==> prices.basket_cost_ok(spt_amount, mega),
        r matches Err(e) ==> e == RegistryError::CheckedFailure && *final(member) == *old(member)
            && *final(entity) == *old(entity),
        r is Ok ==> *final(member) == (Member {
            generation: old(entity).generation,
            ..old(member).spec_spt_did_create(*prices, spt_amount, mega)
        }) && *final(entity) == old(entity).spec_spt_did_create(spt_amount, mega),
{
    match member.spt_did_create(prices, spt_amount, mega) {
        Ok(()) => (),
        Err(e) => {
            return Err(e);
        },
    }
    member.generation = entity.generation;
    entity.spt_did_create(spt_amount, mega);
    Ok(())
}

/// One whole stake transaction as the host serializes it: every gate, then
/// the ledger writes. The pool conversion itself — the one step that
/// crosses the trust boundary — sits between the two and is the caller's
/// to perform; its failure aborts the host transaction, so a refusal here
/// leaves both ledgers untouched.
pub fn stake(
    member: &mut Member,
    entity: &mut Entity,
    registrar: &Registrar,
    prices: &PoolPrices,
    spt_amount: u64,
    mega: bool,
) -> (r: Result<(), RegistryError>)
    requires
        prices.well_formed(),
        spec_stake_checks(*old(member), *old(entity), *registrar, *prices, spt_amount, mega)
            is Ok ==> (if mega {
            old(member).books.spt_mega_amount + spt_amount <= u64::MAX && old(entity).spt_mega_amount
                + spt_amount <= u64::MAX
        } else {
            old(member).books.spt_amount + spt_amount <= u64::MAX && old(entity).spt_amount
                + spt_amount <= u64::MAX
        }),
    ensures
        r == spec_stake_checks(*old(member), *old(entity), *registrar, *prices, spt_amount, mega),
        r is Err ==> *final(member) == *old(member) && *final(entity) == *old(entity),
        r is Ok ==> *final(member) == (Member {
            generation: old(entity).generation,
            ..old(member).spec_spt_did_create(*prices, spt_amount, mega)
        }) && *final(entity) == old(entity).spec_spt_did_create(spt_amount, mega),
        r is Ok ==> final(member).generation == final(entity).generation,
{
    match stake_checks(member, entity, registrar, prices, spt_amount, mega) {
        Ok(()) => (),
        Err(e) => {
            return Err(e);
        },
    }
    match stake_transition(member, entity, prices, spt_amount, mega) {
        Ok(()) => (),
        Err(e) => {
            return Err(e);
        },
    }
    Ok(())
}

/// Law: stake from different generations is never commingled. While a
/// member holding shares lags behind its entity's generation, every stake
/// attempt that passes the affordability gate fails with the stale-stake
/// error; once its shares are fully withdrawn, the stale marker no longer
/// blocks, and a stake passing the remaining gates succeeds (the `stake`
/// contract then sets the member's marker to the entity's generation).
pub proof fn lemma_generation_isolation(
    member: Member,
    entity: Entity,
    registrar: Registrar,
    prices: PoolPrices,
    spt_amount: u64,
    mega: bool,
)
    ensures
        (member.generation != entity.generation && !(member.books.spt_amount == 0
            && member.books.spt_mega_amount == 0) && member.spec_can_afford(
            prices,
            spt_amount,
            mega,
        ) is Ok) ==> spec_stake_checks(member, entity, registrar, prices, spt_amount, mega)
            == Err::<(), RegistryError>(RegistryError::StaleStakeNeedsWithdrawal),
        (member.books.spt_amount == 0 && member.books.spt_mega_amount == 0
            && member.spec_can_afford(prices, spt_amount, mega) is Ok
            && entity.spec_amount_equivalent(prices) >= registrar.reward_activation_threshold
            && prices.spec_srm_equivalent(spt_amount, mega) + entity.spec_amount_equivalent(prices)
            <= registrar.max_stake_per_entity) ==> spec_stake_checks(
            member,
            entity,
            registrar,
            prices,
            spt_amount,
            mega,
        ) is Ok,
{
}

/// Law: the per-entity cap is enforced. A stake whose worth would push the
/// entity's staked value past the cap never passes the gates, and fails
/// with the cap error once every earlier gate passes; a stake landing
/// exactly on the cap, with every other gate passing, succeeds.
pub proof fn lemma_cap_enforcement(
    member: Member,
    entity: Entity,
    registrar: Registrar,
    prices: PoolPrices,
    spt_amount: u64,
    mega: bool,
)
    ensures
        (prices.spec_srm_equivalent(spt_amount, mega) + entity.spec_amount_equivalent(prices)
            > registrar.max_stake_per_entity) ==> spec_stake_checks(
            member,
            entity,
            registrar,
            prices,
            spt_amount,
            mega,
        ) is Err,
        (prices.spec_srm_equivalent(spt_amount, mega) + entity.spec_amount_equivalent(prices)
            > registrar.max_stake_per_entity && member.spec_can_afford(prices, spt_amount, mega)
            is Ok && (member.generation == entity.generation || (member.books.spt_amount == 0
            && member.books.spt_mega_amount == 0)) && entity.spec_amount_equivalent(prices)
            >= registrar.reward_activation_threshold) ==> spec_stake_checks(
            member,
            entity,
            registrar,
            prices,
            spt_amount,
            mega,
        ) == Err::<(), RegistryError>(RegistryError::EntityMaxStake),
        (prices.spec_srm_equivalent(spt_amount, mega) + entity.spec_amount_equivalent(prices)
            == registrar.max_stake_per_entity && member.spec_can_afford(prices, spt_amount, mega)
            is Ok && (member.generation == entity.generation || (member.books.spt_amount == 0
            && member.books.spt_mega_amount == 0)) && entity.spec_amount_equivalent(prices)
            >= registrar.reward_activation_threshold) ==> spec_stake_checks(
            member,
            entity,
            registrar,
            prices,
            spt_amount,
            mega,
        ) is Ok,
{
}

} // verus!

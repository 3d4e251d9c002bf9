use vstd::prelude::*;

use crate::entity::Entity;
use crate::error::RegistryError;
use crate::generation::Generation;
use crate::keys::Pubkey;
use crate::member::Member;
use crate::pending_withdrawal::PendingWithdrawal;
use crate::pool::PoolPrices;
use crate::registrar::Registrar;

verus! {

/// Whether `snapshot` is a usable frozen basket for `(entity_key,
/// generation)`.
pub open spec fn snapshot_matches(
    snapshot: Option<&Generation>,
    entity_key: Pubkey,
    generation: u64,
) -> bool {
    match snapshot {
        Some(g) => g.initialized && g.entity == entity_key && g.generation == generation
            && g.last_active_prices.well_formed(),
        None => false,
    }
}

/// What the start of a withdrawal checks: the member must hold the shares
/// it redeems, and a member withdrawing against a superseded generation
/// must come with the matching frozen snapshot.
pub open spec fn spec_start_checks(
    member: Member,
    entity: Entity,
    snapshot_ok: bool,
    spt_amount: u64,
    mega: bool,
) -> Result<(), RegistryError> {
    if (if mega {
        spt_amount > member.books.spt_mega_amount
    } else {
        spt_amount > member.books.spt_amount
    }) {
        Err(RegistryError::InsufficientStakeBalance)
    } else if member.generation != entity.generation && !snapshot_ok {
        Err(RegistryError::GenerationMismatch)
    } else {
        Ok(())
    }
}

/// Starts a two-phase withdrawal of `spt_amount` shares of the chosen
/// class: burns the shares on both the member and the entity — so they can
/// no longer back further staking — and records a pending withdrawal whose
/// payout becomes claimable once the registrar's withdrawal timelock has
/// elapsed. A member at a superseded generation must present the frozen
/// snapshot for its generation; its payout basis will be that snapshot, not
/// the live basket. Nothing is changed when a check refuses.
pub fn start_stake_withdrawal(
    member: &mut Member,
    entity: &mut Entity,
    registrar: &Registrar,
    snapshot: Option<&Generation>,
    member_key: Pubkey,
    entity_key: Pubkey,
    spt_amount: u64,
    mega: bool,
    now: i64,
) -> (r: Result<PendingWithdrawal, RegistryError>)
    requires
        registrar.well_formed(),
        0 <= now,
        now + registrar.withdrawal_timelock <= i64::MAX,
        // the entity aggregates the shares of its members, so it covers
        // whatever a single member redeems
        if mega {
            spt_amount <= old(member).books.spt_mega_amount ==> spt_amount <= old(
                entity,
            ).spt_mega_amount
        } else {
            spt_amount <= old(member).books.spt_amount ==> spt_amount <= old(entity).spt_amount
        },
    ensures
        ({
            let checks = spec_start_checks(
                *old(member),
                *old(entity),
                snapshot_matches(snapshot, entity_key, old(member).generation),
                spt_amount,
                mega,
            );
            &&& r is Ok <==> checks is Ok
            &&& (r matches Err(e) ==> checks == Err::<(), RegistryError>(e))
        }),
        r is Err ==> *final(member) == *old(member) && *final(entity) == *old(entity),
        r matches Ok(pw) ==> *final(member) == old(member).spec_spt_burned(spt_amount, mega)
            && *final(entity) == old(entity).spec_spt_burned(spt_amount, mega) && pw
            == (PendingWithdrawal {
            initialized: true,
            burned: false,
            member: member_key,
            entity: entity_key,
            mega,
            spt_amount,
            start_ts: now,
            end_ts: (now + registrar.withdrawal_timelock) as i64,
            generation: old(member).generation,
        }),
{
    let too_many = if mega {
        spt_amount > member.books.spt_mega_amount
    } else {
        spt_amount > member.books.spt_amount
    };
    if too_many {
        return Err(RegistryError::InsufficientStakeBalance);
    }
    if member.generation != entity.generation {
        let ok = match snapshot {
            Some(g) => g.initialized && g.entity == entity_key && g.generation
                == member.generation && g.last_active_prices.check_well_formed(),
            None => false,
        };
        if !ok {
            return Err(RegistryError::GenerationMismatch);
        }
    }
    let generation = member.generation;
    let end_ts = now + registrar.withdrawal_timelock;
    member.spt_did_redeem_start(spt_amount, mega);
    entity.spt_did_redeem_start(spt_amount, mega);
    Ok(
        PendingWithdrawal {
            initialized: true,
            burned: false,
            member: member_key,
            entity: entity_key,
            mega,
            spt_amount,
            start_ts: now,
            end_ts,
            generation,
        },
    )
}

/// What ending a withdrawal returns, given the payout basis that applies:
/// a pending withdrawal pays out only once, only after its unlock time, and
/// pays the exact worth of its shares under `basis`.
pub open spec fn spec_end_stake_withdrawal(
    pending: PendingWithdrawal,
    entity_generation: u64,
    snapshot_ok: bool,
    basis: PoolPrices,
    now: i64,
) -> Result<(u64, u64), RegistryError> {
    if pending.burned {
        Err(RegistryError::WithdrawalAlreadyCompleted)
    } else if now < pending.end_ts {
        Err(RegistryError::TimelockNotElapsed)
    } else if pending.generation != entity_generation && !snapshot_ok {
        Err(RegistryError::GenerationMismatch)
    } else if !basis.basket_cost_ok(pending.spt_amount, pending.mega) {
        Err(RegistryError::CheckedFailure)
    } else if pending.mega {
        Ok(
            (
                (basis.mega_srm_per_spt() * pending.spt_amount) as u64,
                (basis.msrm_per_spt() * pending.spt_amount) as u64,
            ),
        )
    } else {
        Ok(((basis.srm_per_spt() * pending.spt_amount) as u64, 0u64))
    }
}

/// The full outcome of ending a withdrawal: the payout basis is the live
/// basket while the withdrawal's generation is current, and the matching
/// frozen snapshot when it is superseded.
pub open spec fn spec_end_result(
    pending: PendingWithdrawal,
    entity: Entity,
    live: PoolPrices,
    snapshot: Option<&Generation>,
    now: i64,
) -> Result<(u64, u64), RegistryError> {
    let stale = pending.generation != entity.generation;
    let sok = snapshot_matches(snapshot, pending.entity, pending.generation);
    let basis = if stale && sok {
        match snapshot {
            Some(g) => g.last_active_prices,
            None => live,
        }
    } else {
        live
    };
    spec_end_stake_withdrawal(pending, entity.generation, sok, basis, now)
}

/// Ends a pending withdrawal: after the timelock has elapsed, pays the
/// worth of the burned shares — under the live basket for a current
/// generation, under the frozen snapshot for a superseded one — back into
/// the member's unstaked balances and consumes the pending record, which
/// can never pay again. Nothing is changed when a check refuses.
pub fn end_stake_withdrawal(
    member: &mut Member,
    pending: &mut PendingWithdrawal,
    entity: &Entity,
    live_prices: &PoolPrices,
    snapshot: Option<&Generation>,
    now: i64,
) -> (r: Result<(u64, u64), RegistryError>)
    requires
        live_prices.well_formed(),
        spec_end_result(*old(pending), *entity, *live_prices, snapshot, now) matches Ok(p) ==> old(
            member,
        ).books.stake_intent + p.0 <= u64::MAX && old(member).books.mega_stake_intent + p.1
            <= u64::MAX,
    ensures
        r == spec_end_result(*old(pending), *entity, *live_prices, snapshot, now),
        r is Err ==> *final(member) == *old(member) && *final(pending) == *old(pending),
        r matches Ok(p) ==> *final(pending) == (PendingWithdrawal {
            burned: true,
            ..*old(pending)
        }) && *final(member) == old(member).spec_spt_did_redeem_end(p.0, p.1),
{
    if pending.burned {
        return Err(RegistryError::WithdrawalAlreadyCompleted);
    }
    if now < pending.end_ts {
        return Err(RegistryError::TimelockNotElapsed);
    }

    let asset_amount: u64;
    let mega_asset_amount: u64;
    if pending.generation != entity.generation {
        let g = match snapshot {
            Some(g) => g,
            None => {
                return Err(RegistryError::GenerationMismatch);
            },
        };
        let ok = g.initialized && g.entity == pending.entity && g.generation == pending.generation
            && g.last_active_prices.check_well_formed();
        if !ok {
            return Err(RegistryError::GenerationMismatch);
        }
        let q = match g.last_active_prices.basket_quantities(pending.spt_amount, pending.mega) {
            Ok(q) => q,
            Err(e) => {
                return Err(e);
            },
        };
        if pending.mega {
            asset_amount = q[0];
            mega_asset_amount = q[1];
        } else {
            asset_amount = q[0];
            mega_asset_amount = 0;
        }
    } else {
        let q = match live_prices.basket_quantities(pending.spt_amount, pending.mega) {
            Ok(q) => q,
            Err(e) => {
                return Err(e);
            },
        };
        if pending.mega {
            asset_amount = q[0];
            mega_asset_amount = q[1];
        } else {
            asset_amount = q[0];
            mega_asset_amount = 0;
        }
    }

    member.spt_did_redeem_end(asset_amount, mega_asset_amount);
    pending.burned = true;
    Ok((asset_amount, mega_asset_amount))
}

/// Law: a pending withdrawal pays exactly once. Before its unlock time the
/// payout always fails with the timelock error; from the unlock time on, a
/// live withdrawal whose payout basis resolves succeeds; and once paid —
/// the record marked burned — every further attempt fails, at any time.
pub proof fn lemma_timelock_exactly_once(
    pending: PendingWithdrawal,
    entity_generation: u64,
    snapshot_ok: bool,
    basis: PoolPrices,
    now: i64,
    later: i64,
)
    requires
        !pending.burned,
    ensures
        now < pending.end_ts ==> spec_end_stake_withdrawal(
            pending,
            entity_generation,
            snapshot_ok,
            basis,
            now,
        ) == Err::<(u64, u64), RegistryError>(RegistryError::TimelockNotElapsed),
        (now >= pending.end_ts && (pending.generation == entity_generation || snapshot_ok)
            && basis.basket_cost_ok(pending.spt_amount, pending.mega)) ==> spec_end_stake_withdrawal(
            pending,
            entity_generation,
            snapshot_ok,
            basis,
            now,
        ) is Ok,
        spec_end_stake_withdrawal(
            (PendingWithdrawal { burned: true, ..pending }),
            entity_generation,
            snapshot_ok,
            basis,
            later,
        ) == Err::<(u64, u64), RegistryError>(RegistryError::WithdrawalAlreadyCompleted),
{
}

} // verus!

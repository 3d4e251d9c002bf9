use vstd::prelude::*;

use crate::error::RegistryError;
use crate::keys::Pubkey;

verus! {

/// The value of an optional override, or the current value when none is
/// given.
pub open spec fn or_current<T>(update: Option<T>, current: T) -> T {
    match update {
        Some(v) => v,
        None => current,
    }
}

/// Global configuration of one registry deployment. Created once, mutated
/// only by the configured authority, never destroyed.
#[derive(Clone, Copy, Debug, PartialEq, Eq, Structural)]
pub struct Registrar {
    /// Set on creation.
    pub initialized: bool,
    /// The privileged account allowed to change this configuration.
    pub authority: Pubkey,
    /// Nonce for deriving the vault authority address.
    pub nonce: u8,
    /// Seconds that must pass between starting and ending a withdrawal.
    pub withdrawal_timelock: i64,
    /// Seconds after which an entity below the threshold deactivates.
    pub deactivation_timelock: i64,
    /// Minimum staked value for an entity to be eligible for rewards.
    pub reward_activation_threshold: u64,
    /// Cap on the staked value of a single entity, in common units.
    pub max_stake_per_entity: u64,
    /// Custody vault for the primary asset.
    pub vault: Pubkey,
    /// Custody vault for the mega asset.
    pub mega_vault: Pubkey,
    /// The primary pool instance.
    pub pool: Pubkey,
    /// The mega pool instance.
    pub mega_pool: Pubkey,
    /// The pool program both instances belong to.
    pub pool_program_id: Pubkey,
}

impl Registrar {
    /// Timelocks are durations and can never be negative.
    pub open spec fn well_formed(&self) -> bool {
        self.withdrawal_timelock >= 0 && self.deactivation_timelock >= 0
    }

    /// The configuration of a fresh deployment.
    pub fn new(
        authority: Pubkey,
        nonce: u8,
        withdrawal_timelock: i64,
        deactivation_timelock: i64,
        reward_activation_threshold: u64,
        max_stake_per_entity: u64,
        vault: Pubkey,
        mega_vault: Pubkey,
        pool: Pubkey,
        mega_pool: Pubkey,
        pool_program_id: Pubkey,
    ) -> (r: Registrar)
        requires
            withdrawal_timelock >= 0,
            deactivation_timelock >= 0,
        ensures
            r == (Registrar {
                initialized: true,
                authority,
                nonce,
                withdrawal_timelock,
                deactivation_timelock,
                reward_activation_threshold,
                max_stake_per_entity,
                vault,
                mega_vault,
                pool,
                mega_pool,
                pool_program_id,
            }),
            r.well_formed(),
    {
        Registrar {
            initialized: true,
            authority,
            nonce,
            withdrawal_timelock,
            deactivation_timelock,
            reward_activation_threshold,
            max_stake_per_entity,
            vault,
            mega_vault,
            pool,
            mega_pool,
            pool_program_id,
        }
    }
}

/// The authority gate: only the configured authority, with its signature
/// present, may touch the configuration.
pub fn governance(registrar: &Registrar, authority: Pubkey, authority_signed: bool) -> (r: Result<
    (),
    RegistryError,
>)
    ensures
        r is Ok <==> (authority_signed && authority == registrar.authority),
        r matches Err(e) ==> e == RegistryError::Unauthorized,
{
    if !authority_signed {
        return Err(RegistryError::Unauthorized);
    }
    if !(authority == registrar.authority) {
        return Err(RegistryError::Unauthorized);
    }
    Ok(())
}

/// Applies an authority-gated configuration update: each field given as
/// `Some` is overwritten, every other field keeps its value. A refused
/// update changes nothing.
pub fn update_registrar(
    registrar: &mut Registrar,
    authority: Pubkey,
    authority_signed: bool,
    new_authority: Option<Pubkey>,
    withdrawal_timelock: Option<i64>,
    deactivation_timelock: Option<i64>,
    reward_activation_threshold: Option<u64>,
    max_stake_per_entity: Option<u64>,
) -> (r: Result<(), RegistryError>)
    requires
        withdrawal_timelock matches Some(t) ==> t >= 0,
        deactivation_timelock matches Some(t) ==> t >= 0,
    ensures
        r is Ok <==> (authority_signed && authority == old(registrar).authority),
        r matches Err(e) ==> e == RegistryError::Unauthorized && *final(registrar) == *old(
            registrar,
        ),
        r is Ok ==> *final(registrar) == (Registrar {
            authority: or_current(new_authority, old(registrar).authority),
            withdrawal_timelock: or_current(withdrawal_timelock, old(registrar).withdrawal_timelock),
            deactivation_timelock: or_current(
                deactivation_timelock,
                old(registrar).deactivation_timelock,
            ),
            reward_activation_threshold: or_current(
                reward_activation_threshold,
                old(registrar).reward_activation_threshold,
            ),
            max_stake_per_entity: or_current(
                max_stake_per_entity,
                old(registrar).max_stake_per_entity,
            ),
            ..*old(registrar)
        }),
        old(registrar).well_formed() ==> final(registrar).well_formed(),
{
    match governance(registrar, authority, authority_signed) {
        Ok(()) => (),
        Err(e) => {
            return Err(e);
        },
    }
    if let Some(a) = new_authority {
        registrar.authority = a;
    }
    if let Some(t) = withdrawal_timelock {
        registrar.withdrawal_timelock = t;
    }
    if let Some(t) = deactivation_timelock {
        registrar.deactivation_timelock = t;
    }
    if let Some(t) = reward_activation_threshold {
        registrar.reward_activation_threshold = t;
    }
    if let Some(m) = max_stake_per_entity {
        registrar.max_stake_per_entity = m;
    }
    Ok(())
}

/// What `pool_check` returns: the pool accounts an operation was handed must
/// be exactly the ones the registrar was configured with, and the active
/// pool must match the requested share class.
pub open spec fn spec_pool_check(
    registrar: Registrar,
    pool_program_id: Pubkey,
    pool_account: Pubkey,
    mega_pool_account: Pubkey,
    active_pool_account: Pubkey,
    is_mega: bool,
    retbuf_program: Pubkey,
    shared_memory_program: Pubkey,
) -> Result<(), RegistryError> {
    if registrar.pool_program_id != pool_program_id {
        Err(RegistryError::PoolProgramIdMismatch)
    } else if registrar.pool != pool_account {
        Err(RegistryError::PoolMismatch)
    } else if registrar.mega_pool != mega_pool_account {
        Err(RegistryError::MegaPoolMismatch)
    } else if is_mega && registrar.mega_pool != active_pool_account {
        Err(RegistryError::PoolMismatch)
    } else if !is_mega && registrar.pool != active_pool_account {
        Err(RegistryError::PoolMismatch)
    } else if shared_memory_program != retbuf_program {
        Err(RegistryError::SharedMemoryMismatch)
    } else {
        Ok(())
    }
}

/// Validates the pool accounts handed to an operation against the
/// registrar's configuration. `active_pool_account` is the pool the
/// operation acts on; `shared_memory_program` is the known id of the
/// return-buffer program the pool writes its answers through.
pub fn pool_check(
    registrar: &Registrar,
    pool_program_id: Pubkey,
    pool_account: Pubkey,
    mega_pool_account: Pubkey,
    active_pool_account: Pubkey,
    is_mega: bool,
    retbuf_program: Pubkey,
    shared_memory_program: Pubkey,
) -> (r: Result<(), RegistryError>)
    ensures
        r == spec_pool_check(
            *registrar,
            pool_program_id,
            pool_account,
            mega_pool_account,
            active_pool_account,
            is_mega,
            retbuf_program,
            shared_memory_program,
        ),
{
    if registrar.pool_program_id != pool_program_id {
        return Err(RegistryError::PoolProgramIdMismatch);
    }
    if registrar.pool != pool_account {
        return Err(RegistryError::PoolMismatch);
    }
    if registrar.mega_pool != mega_pool_account {
        return Err(RegistryError::MegaPoolMismatch);
    }
    if is_mega && registrar.mega_pool != active_pool_account {
        return Err(RegistryError::PoolMismatch);
    }
    if !is_mega && registrar.pool != active_pool_account {
        return Err(RegistryError::PoolMismatch);
    }
    if shared_memory_program != retbuf_program {
        return Err(RegistryError::SharedMemoryMismatch);
    }
    Ok(())
}

} // verus!

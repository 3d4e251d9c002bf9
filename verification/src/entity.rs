use vstd::prelude::*;

use crate::error::RegistryError;
use crate::keys::Pubkey;
use crate::pool::PoolPrices;
use crate::registrar::Registrar;

verus! {

/// Lifecycle of an entity. An entity whose staked value stays below the
/// activation threshold for longer than the deactivation timelock becomes
/// pending, then inactive once the grace period elapses; new stake
/// reactivates it. The transitions are driven by time-aware callers; the
/// ledger only records the current state.
#[derive(Clone, Copy, Debug, PartialEq, Eq, Structural)]
pub enum EntityState {
    Active,
    PendingDeactivation,
    Inactive,
}

/// One validator-like participant that members stake against: its leader,
/// its lifecycle state, its generation counter and its aggregate issued
/// shares in both classes.
#[derive(Clone, Copy, Debug, PartialEq, Eq, Structural)]
pub struct Entity {
    /// Set on creation.
    pub initialized: bool,
    /// Registrar the entity is registered with.
    pub registrar: Pubkey,
    /// Leader of the entity.
    pub leader: Pubkey,
    /// Activation counter, advanced once per deactivation event and never
    /// decremented. Members whose marker lags behind hold stale stake.
    pub generation: u64,
    /// Aggregate issued shares of the primary pool.
    pub spt_amount: u64,
    /// Aggregate issued shares of the mega pool.
    pub spt_mega_amount: u64,
    /// Lifecycle state.
    pub state: EntityState,
}

impl Entity {
    pub open spec fn spec_new(registrar: Pubkey, leader: Pubkey) -> Entity {
        Entity {
            initialized: true,
            registrar,
            leader,
            generation: 0,
            spt_amount: 0,
            spt_mega_amount: 0,
            state: EntityState::Active,
        }
    }

    /// A freshly registered entity: active, generation zero, no stake.
    pub fn new(registrar: Pubkey, leader: Pubkey) -> (e: Entity)
        ensures
            e == Entity::spec_new(registrar, leader),
    {
        Entity {
            initialized: true,
            registrar,
            leader,
            generation: 0,
            spt_amount: 0,
            spt_mega_amount: 0,
            state: EntityState::Active,
        }
    }

    /// Total staked value of the entity in common units, at the given
    /// prices.
    pub open spec fn spec_amount_equivalent(&self, prices: PoolPrices) -> int {
        prices.spec_srm_equivalent(self.spt_amount, false) + prices.spec_srm_equivalent(
            self.spt_mega_amount,
            true,
        )
    }

    /// Total staked value in common units. Fails only when the value does
    /// not fit in a 64-bit balance.
    pub fn amount_equivalent(&self, prices: &PoolPrices) -> (r: Result<u64, RegistryError>)
        requires
            prices.well_formed(),
        ensures
            r is Ok <==> self.spec_amount_equivalent(*prices) <= u64::MAX,
            r matches Ok(v) ==> v == self.spec_amount_equivalent(*prices),
            r matches Err(e) ==> e == RegistryError::CheckedFailure,
    {
        proof {
            vstd::arithmetic::mul::lemma_mul_nonnegative(
                prices.srm_per_spt(),
                self.spt_amount as int,
            );
            vstd::arithmetic::mul::lemma_mul_nonnegative(
                prices.mega_srm_per_spt() + prices.msrm_per_spt(),
                self.spt_mega_amount as int,
            );
        }
        let a = match prices.srm_equivalent(self.spt_amount, false) {
            Ok(v) => v,
            Err(e) => {
                return Err(e);
            },
        };
        let b = match prices.srm_equivalent(self.spt_mega_amount, true) {
            Ok(v) => v,
            Err(e) => {
                return Err(e);
            },
        };
        if a as u128 + b as u128 > u64::MAX as u128 {
            Err(RegistryError::CheckedFailure)
        } else {
            Ok(a + b)
        }
    }

    /// Whether the entity's staked value reaches the reward activation
    /// threshold; only activated entities may take new stake.
    pub fn meets_activation_requirements(&self, prices: &PoolPrices, registrar: &Registrar) -> (r:
        bool)
        requires
            prices.well_formed(),
        ensures
            r == (self.spec_amount_equivalent(*prices)
                >= registrar.reward_activation_threshold),
    {
        proof {
            vstd::arithmetic::mul::lemma_mul_nonnegative(
                prices.srm_per_spt(),
                self.spt_amount as int,
            );
            vstd::arithmetic::mul::lemma_mul_nonnegative(
                prices.mega_srm_per_spt() + prices.msrm_per_spt(),
                self.spt_mega_amount as int,
            );
        }
        let a = match prices.srm_equivalent(self.spt_amount, false) {
            Ok(v) => v,
            Err(_) => {
                return true;
            },
        };
        let b = match prices.srm_equivalent(self.spt_mega_amount, true) {
            Ok(v) => v,
            Err(_) => {
                return true;
            },
        };
        a as u128 + b as u128 >= registrar.reward_activation_threshold as u128
    }

    /// Advances the generation counter; called exactly once per
    /// deactivation event. The counter only ever grows.
    pub fn advance_generation(&mut self)
        requires
            old(self).generation < u64::MAX,
        ensures
            *final(self) == (Entity { generation: (old(self).generation + 1) as u64, ..*old(self) }),
            final(self).generation > old(self).generation,
    {
        self.generation = self.generation + 1;
    }

    /// Active entities whose staked value stayed below the threshold past
    /// the deactivation timelock become pending.
    pub fn mark_pending_deactivation(&mut self)
        requires
            old(self).state == EntityState::Active,
        ensures
            *final(self) == (Entity { state: EntityState::PendingDeactivation, ..*old(self) }),
    {
        self.state = EntityState::PendingDeactivation;
    }

    /// Pending entities become inactive once the grace period elapses.
    pub fn mark_inactive(&mut self)
        requires
            old(self).state == EntityState::PendingDeactivation,
        ensures
            *final(self) == (Entity { state: EntityState::Inactive, ..*old(self) }),
    {
        self.state = EntityState::Inactive;
    }

    /// New stake reactivates an inactive entity; its generation counter is
    /// not reset — reward accrual merely resumes.
    pub fn mark_active(&mut self)
        requires
            old(self).state == EntityState::Inactive,
        ensures
            *final(self) == (Entity { state: EntityState::Active, ..*old(self) }),
    {
        self.state = EntityState::Active;
    }

    /// The entity after its aggregate gains `amount` issued shares.
    pub open spec fn spec_spt_did_create(self, amount: u64, mega: bool) -> Entity {
        if mega {
            Entity { spt_mega_amount: (self.spt_mega_amount + amount) as u64, ..self }
        } else {
            Entity { spt_amount: (self.spt_amount + amount) as u64, ..self }
        }
    }

    /// Records freshly created shares in the entity's aggregate.
    pub fn spt_did_create(&mut self, amount: u64, mega: bool)
        requires
            if mega {
                old(self).spt_mega_amount + amount <= u64::MAX
            } else {
                old(self).spt_amount + amount <= u64::MAX
            },
        ensures
            *final(self) == old(self).spec_spt_did_create(amount, mega),
    {
        if mega {
            self.spt_mega_amount = self.spt_mega_amount + amount;
        } else {
            self.spt_amount = self.spt_amount + amount;
        }
    }

    /// The entity after `amount` issued shares are burned.
    pub open spec fn spec_spt_burned(self, amount: u64, mega: bool) -> Entity {
        if mega {
            Entity { spt_mega_amount: (self.spt_mega_amount - amount) as u64, ..self }
        } else {
            Entity { spt_amount: (self.spt_amount - amount) as u64, ..self }
        }
    }

    /// Removes burned shares from the entity's aggregate when a withdrawal
    /// starts.
    pub fn spt_did_redeem_start(&mut self, amount: u64, mega: bool)
        requires
            if mega {
                amount <= old(self).spt_mega_amount
            } else {
                amount <= old(self).spt_amount
            },
        ensures
            *final(self) == old(self).spec_spt_burned(amount, mega),
    {
        if mega {
            self.spt_mega_amount = self.spt_mega_amount - amount;
        } else {
            self.spt_amount = self.spt_amount - amount;
        }
    }
}

} // verus!

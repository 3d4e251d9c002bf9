use vstd::prelude::*;

use crate::keys::Pubkey;

verus! {

/// The operations a caller can ask of the registry. Transport and framing
/// are the host's business; this is the vocabulary the registry speaks once
/// a request has reached it.
#[derive(Clone, Copy, Debug, PartialEq, Eq, Structural)]
pub enum RegistryInstruction {
    /// Sets up the registrar of a fresh deployment.
    Initialize {
        /// The privileged account.
        authority: Pubkey,
        /// Nonce for deriving the vault authority address.
        nonce: u8,
        /// Seconds a withdrawal must wait before completing.
        withdrawal_timelock: i64,
        /// Seconds after which an under-threshold entity deactivates.
        deactivation_timelock: i64,
        /// Staked value an entity needs to earn rewards.
        reward_activation_threshold: u64,
        /// Cap on the staked value of one entity.
        max_stake_per_entity: u64,
    },
    /// Overwrites the configuration fields given as `Some`.
    UpdateRegistrar {
        new_authority: Option<Pubkey>,
        withdrawal_timelock: Option<i64>,
        deactivation_timelock: Option<i64>,
        reward_activation_threshold: Option<u64>,
        max_stake_per_entity: Option<u64>,
    },
    /// Registers a new entity led by the signer.
    CreateEntity,
    /// Hands an entity to a new leader.
    UpdateEntity { leader: Pubkey },
    /// Joins an entity, creating the member account.
    CreateMember {
        /// A custodian allowed to deposit and withdraw on the beneficiary's
        /// behalf through the delegate book.
        delegate: Pubkey,
    },
    /// Replaces the member's delegate; only allowed while the outgoing
    /// delegate's book is empty.
    UpdateMember { delegate: Option<Pubkey> },
    /// Moves a member, with its stake, to another entity.
    SwitchEntity,
    /// Adds to the member's unstaked balance.
    Deposit { amount: u64 },
    /// Draws from the member's unstaked balance.
    Withdraw { amount: u64 },
    /// Converts unstaked balance into pool shares.
    Stake { amount: u64 },
    /// Burns shares and opens a timelocked pending withdrawal.
    StartStakeWithdrawal { amount: u64 },
    /// Pays out a pending withdrawal once its timelock elapsed.
    EndStakeWithdrawal,
    /// Burns shares as a penalty, without payout.
    Slash { amount: u64 },
}

} // verus!

use vstd::prelude::*;

use crate::keys::Pubkey;

verus! {

/// One in-flight two-phase withdrawal. Created when the withdrawal starts —
/// at which point the shares being redeemed are already burned, so they can
/// no longer back further staking — and consumed exactly once when it ends.
#[derive(Clone, Copy, Debug, PartialEq, Eq, Structural)]
pub struct PendingWithdrawal {
    /// Set on creation.
    pub initialized: bool,
    /// Whether the withdrawal has already been paid out.
    pub burned: bool,
    /// The member withdrawing.
    pub member: Pubkey,
    /// The entity the stake was pointed at.
    pub entity: Pubkey,
    /// The share class being redeemed.
    pub mega: bool,
    /// How many pool shares are being redeemed.
    pub spt_amount: u64,
    /// When the withdrawal started.
    pub start_ts: i64,
    /// When the timelock elapses and the payout becomes claimable.
    pub end_ts: i64,
    /// The member's generation marker at start time; decides whether the
    /// payout uses the live basket or a frozen snapshot.
    pub generation: u64,
}

} // verus!

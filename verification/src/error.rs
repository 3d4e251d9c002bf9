use vstd::prelude::*;

verus! {

/// Every way an operation of the registry can fail. All failures are
/// surfaced synchronously and abort the whole operation; nothing is retried.
#[derive(Clone, Copy, Debug, PartialEq, Eq, Structural)]
pub enum RegistryError {
    /// The required approval (beneficiary, delegate or authority) is missing.
    Unauthorized,
    /// The unstaked balance does not cover the requested purchase or payout.
    InsufficientStakeIntentBalance,
    /// A withdrawal would leave less value than the delegate's cost basis.
    InsufficientBalance,
    /// A withdrawal asks for more pool shares than the member holds.
    InsufficientStakeBalance,
    /// Stake from a superseded generation must be withdrawn before staking anew.
    StaleStakeNeedsWithdrawal,
    /// The entity's staked value is below the reward activation threshold.
    EntityNotActivated,
    /// The stake would push the entity past the per-entity cap.
    EntityMaxStake,
    /// The delegate still has funds booked and cannot be replaced.
    DelegateInUse,
    /// The withdrawal timelock has not elapsed yet.
    TimelockNotElapsed,
    /// The pending withdrawal was already paid out.
    WithdrawalAlreadyCompleted,
    /// The relay moved more out of the vault than the approved ceiling.
    InsufficientAmount,
    /// A checked arithmetic step overflowed.
    CheckedFailure,
    /// No snapshot matches the stale generation of the withdrawer.
    GenerationMismatch,
    /// The pool program id does not match the registrar's configuration.
    PoolProgramIdMismatch,
    /// The pool account does not match the registrar's configuration.
    PoolMismatch,
    /// The mega pool account does not match the registrar's configuration.
    MegaPoolMismatch,
    /// The return-buffer program is not the expected shared-memory program.
    SharedMemoryMismatch,
    /// A pool holds a basket shape the registry does not recognise.
    InvalidState,
}

} // verus!

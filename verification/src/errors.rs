use vstd::prelude::*;

verus! {

/// Every way an operation on a custody record can fail. Each guard failure
/// surfaces a distinct kind; no error is ever silently swallowed, and a
/// failing operation leaves the record untouched.
#[derive(PartialEq, Eq, Structural, Clone, Copy, Debug)]
pub enum GhostError {
    /// The stake offered at registration is below the minimum.
    InsufficientStake,
    /// The heartbeat interval is below the minimum.
    IntervalTooShort,
    /// The grace period is below the minimum.
    GracePeriodTooShort,
    /// The record is already awakened.
    GhostAlreadyAwakened,
    /// The record is not awakened.
    GhostNotAwakened,
    /// The record is already executed.
    GhostAlreadyExecuted,
    /// The record is not executed yet.
    GhostNotExecuted,
    /// A heartbeat was seen within the interval; the owner is still alive.
    SoulStillAlive,
    /// The grace window has not elapsed yet; execution must wait.
    GracePeriodActive,
    /// The grace window has elapsed; cancellation is no longer possible.
    GracePeriodExpired,
    /// The caller lacks the role the operation demands.
    Unauthorized,
    /// The beneficiary ledger is full.
    TooManyBeneficiaries,
    /// The beneficiary index is out of range.
    InvalidBeneficiary,
    /// This beneficiary entry was already settled.
    BeneficiaryAlreadyPaid,
    /// The supplied recipient does not match the stored one.
    WrongRecipient,
    /// Arithmetic overflow, or a positive balance was required and absent.
    Overflow,
    /// The record is paused.
    GhostPausedError,
    /// The record is not paused.
    GhostNotPaused,
    /// No ownership transfer is pending for this caller.
    NoPendingOwnerTransfer,
    /// The recovery-wallet slot index is out of range.
    InvalidRecoveryWalletIndex,
    /// The entry's action is not Burn.
    NotABurnBeneficiary,
    /// The entry's action is not Transfer.
    NotATransferBeneficiary,
    /// The supplied asset does not match the entry's stored asset.
    WrongMint,
}

} // verus!

//! Failure kinds.

use vstd::prelude::*;

verus! {

/// Why an operation on a wallet, a transaction or an entity record was refused.
///
/// Every refusal leaves the records it was asked to change as they were.
#[derive(Clone, Copy, Debug, PartialEq, Eq, Structural)]
pub enum ErrorCode {
    /// The given owner is not part of this smart wallet.
    InvalidOwner,
    /// Estimated execution time must satisfy the delay.
    InvalidETA,
    /// Delay is negative, or not below the maximum.
    InvalidDelay,
    /// Not enough owners signed this transaction.
    NotEnoughSigners,
    /// Transaction is past the grace period.
    TransactionIsStale,
    /// Transaction hasn't surpassed time lock.
    TransactionNotReady,
    /// The given transaction has already been executed.
    AlreadyExecuted,
    /// Threshold must be at least one and at most the number of owners.
    InvalidThreshold,
    /// Owner set has changed since the creation of the transaction.
    OwnerSetChanged,
    /// Invalid bump seed.
    InvalidBump,
    /// Invalid Mint.
    InvalidMint,
    /// Protected GID.
    ProtectedGid,
    /// Qualified Hijack. Kept for the place it holds among the kinds: no
    /// operation reports it.
    NoJack,
    /// Qualified GID Hijack.
    NoGIDJack,
    /// Inconsistent Timestamp. Kept for the place it holds among the kinds: no
    /// operation reports it.
    DisingenuousUpdate,
    /// Invalid Mint ATA.
    InvalidATA,
    /// More owners, or a later instruction slot, than there is room for.
    CapacityExceeded,
    /// An owner is listed twice.
    DuplicateOwner,
    /// An instruction of the transaction failed.
    ExecutionFailure,
    /// A counter would leave its range.
    IntegerOverflow,
}

} // verus!

use vstd::prelude::*;

verus! {

/// Failure kinds of the tip-settlement instruction. Every failure aborts the
/// instruction as a whole: no record and no transfer is observable.
#[derive(Clone, Copy, Debug, PartialEq, Eq, Structural)]
pub enum TipyError {
    /// The attached message exceeds the 100-byte limit.
    MessageTooLong,
    /// The debited balance is smaller than the requested amount.
    InsufficientFunds,
    /// A token holding account failed deserialization or one of the
    /// trust checks against the asset identity and the sender.
    InvalidTokenAccount,
    /// Reserved: the receiver's holding account is missing. The current
    /// validation sequence surfaces such inputs as `InvalidTokenAccount`.
    ReceiverTokenAccountNotInitialized,
    /// Reserved: the ledger time source failed. The modeled time source is
    /// infallible, so this kind is never produced.
    ClockError,
    /// A transaction record for this (sender, receiver) pair already exists
    /// at the derived address; at most one record per ordered pair.
    RecordAlreadyExists,
}

} // verus!

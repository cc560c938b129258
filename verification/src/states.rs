use vstd::prelude::*;

use crate::identity::Identity;

verus! {

/// Longest message, in bytes, that a transaction record can carry.
pub const MAX_MESSAGE_LEN: usize = 100;

/// The persisted transaction record, created once per successful instruction
/// execution and never mutated afterward.
#[derive(Clone, Debug, PartialEq, Eq)]
pub struct DataTransaction {
    /// Payer.
    pub sender: Identity,
    /// Payee.
    pub receiver: Identity,
    /// Quantity transferred, in the transferred asset's base unit.
    pub amount: u64,
    /// Attached note, UTF-8 bytes, at most [`MAX_MESSAGE_LEN`] of them.
    pub message: Vec<u8>,
    /// Ledger time of execution.
    pub timestamp: i64,
    /// True exactly when the transfer moved native currency, that is when
    /// the supplied asset-identity descriptor was the zero identity.
    pub is_sol: bool,
}

impl DataTransaction {
    /// Record invariant: the message fits the persisted layout.
    pub open spec fn wf(&self) -> bool {
        self.message@.len() <= MAX_MESSAGE_LEN
    }
}

/// An account holding native currency: its identity and its balance in the
/// currency's base unit.
#[derive(Clone, Copy, Debug, PartialEq, Eq, Structural)]
pub struct NativeAccount {
    pub key: Identity,
    pub lamports: u64,
}

} // verus!

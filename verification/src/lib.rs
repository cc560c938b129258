//! Verified core of a peer-to-peer tip-settlement instruction.
//!
//! A payer sends either the ledger's native currency or a fungible token to a
//! recipient, attaches a short message, and the transfer is recorded as a
//! write-once transaction record. The instruction validates its inputs,
//! classifies the transfer by comparing the supplied asset identity against
//! the zero identity, performs the matching transfer against the modeled
//! account state, and writes the record — or aborts with no state change.
//!
//! The host ledger runtime (account lookup by derived address, signature
//! checks, the clock, atomic commit) stands outside this crate; the values it
//! supplies — account states, the current time — enter as plain arguments.

pub mod capabilities;
pub mod errors;
pub mod holding;
pub mod identity;
pub mod send_transaction;
pub mod states;

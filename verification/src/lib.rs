//! Hashlock and timelock escrow for trustless atomic swaps.
//!
//! Two parties, an owner whose principal is locked and a counterparty who
//! executes the swap, exchange value without a trusted third party. Funds are
//! released against the preimage of a stored commitment, inside a sequence of
//! absolute time windows, to exactly one party and exactly once.
//!
//! - [`timelock`] derives the three watermarks and classifies a moment.
//! - [`hashlock`] checks a secret against a commitment.
//! - [`transfer`] says which amounts move between custody and the parties.
//! - [`lifecycle`] decides each operation on one record.
//! - [`registry`] stores records, nonces and the creation count.
//! - [`escrow`] is the state machine over the registry.
//! - [`laws`] states what holds of it on every input.
//!
//! The library performs no transfer and publishes nothing itself: every
//! successful operation returns the transfers and the event for the ledger
//! to carry out.

pub mod assoc;
pub mod bytes;
pub mod escrow;
pub mod hashlock;
pub mod laws;
pub mod lifecycle;
pub mod registry;
pub mod timelock;
pub mod transfer;
pub mod types;

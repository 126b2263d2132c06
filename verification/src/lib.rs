//! Client-side layer for talking to a remote stateful ledger node.
//!
//! The crate provides a layered capability model over a transport session
//! (bare, signed and privileged connection handles), a bounded-retry
//! bootstrap procedure, a query facade for remote keyed storage, and the
//! state machine that drives a signed submission to a caller-chosen
//! acceptance target. All transport itself is asynchronous and lives
//! outside this crate: the functions here make every decision of the
//! protocol from plain values and hand back what the driver must await
//! next.

use vstd::prelude::*;

pub mod bootstrap;
pub mod connection;
pub mod error;
pub mod key_pair;
pub mod primitives;
pub mod scale;
pub mod submission;

verus! {

/// An alias for a block number type.
pub type BlockNumber = u32;
/// An alias for the amount of tokens.
pub type Balance = u128;

/// When submitting a transaction, wait for given status before proceeding.
#[derive(Copy, Clone, Debug, PartialEq, Eq, Structural)]
pub enum TxStatus {
    /// A tx must be included in some block.
    InBlock,
    /// A tx must be included in some finalized block.
    Finalized,
    /// A tx must be successfully submitted.
    Submitted,
}

/// Weight of a transaction.
#[derive(Copy, Clone, Debug, PartialEq, Eq, Structural)]
pub struct Weight {
    /// Execution time coordinate.
    pub ref_time: u64,
    /// Proof size coordinate.
    pub proof_size: u64,
}

/// Struct describing coordinates of a multisig aggregation.
#[derive(Copy, Clone, Debug, PartialEq, Eq, Structural)]
pub struct Timepoint {
    /// Index of a block.
    pub height: BlockNumber,
    /// Index of a call in a block.
    pub index: BlockNumber,
}

} // verus!

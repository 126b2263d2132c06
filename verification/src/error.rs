//! The error taxonomy of the client.
//!
//! Fatal errors indicate programmer or configuration mistakes (a broken
//! storage address, a value missing where one is guaranteed, an invalid
//! seed phrase, a bootstrap that ran out of retries): the operation that
//! hit one must be halted rather than retried. Recoverable errors are
//! routine outcomes of talking to a remote node (a rejected submission,
//! an operation that ran on the ledger but failed, a raw call that could
//! not be transported or decoded) and are handed back for the caller to
//! branch on.

use vstd::prelude::*;

verus! {

/// What went wrong during a client operation.
#[derive(Copy, Clone, Debug, PartialEq, Eq, Structural)]
pub enum Error {
    /// Bootstrap exhausted its retry budget without a live connection.
    RetriesExhausted,
    /// A seed phrase was not a valid seed for the supported scheme.
    InvalidSeed,
    /// A storage read failed outright: the address was malformed or the
    /// transport broke during the fetch.
    StorageAccessFailed,
    /// A storage value was fetched but could not be decoded as the
    /// requested shape.
    StorageDecodeFailed,
    /// A storage cell guaranteed to hold a value held none.
    StorageValueMissing,
    /// A raw procedure call could not be transported.
    RpcTransportFailed,
    /// A raw procedure reply could not be decoded as the requested shape.
    RpcDecodeFailed,
    /// The node rejected a submission outright: it never reached a block.
    SubmissionRejected,
    /// A submission was included in a block but the operation itself
    /// failed on the ledger.
    ExecutionFailed,
    /// The transport broke while a submission's progress was awaited.
    TransportLost,
    /// A signed handle could not be upgraded to a privileged one.
    NotPrivileged,
}

impl Error {
    /// Whether the error is fatal: it marks a programmer or configuration
    /// mistake that halts the calling operation, as opposed to a routine
    /// remote failure the caller branches on.
    pub open spec fn spec_is_fatal(self) -> bool {
        match self {
            Error::RetriesExhausted => true,
            Error::InvalidSeed => true,
            Error::StorageAccessFailed => true,
            Error::StorageDecodeFailed => true,
            Error::StorageValueMissing => true,
            Error::RpcTransportFailed => false,
            Error::RpcDecodeFailed => false,
            Error::SubmissionRejected => false,
            Error::ExecutionFailed => false,
            Error::TransportLost => false,
            Error::NotPrivileged => false,
        }
    }

    /// Whether the error is fatal (see [`Error::spec_is_fatal`]).
    pub fn is_fatal(&self) -> (r: bool)
        ensures
            r == self.spec_is_fatal(),
    {
        match self {
            Error::RetriesExhausted => true,
            Error::InvalidSeed => true,
            Error::StorageAccessFailed => true,
            Error::StorageDecodeFailed => true,
            Error::StorageValueMissing => true,
            Error::RpcTransportFailed => false,
            Error::RpcDecodeFailed => false,
            Error::SubmissionRejected => false,
            Error::ExecutionFailed => false,
            Error::TransportLost => false,
            Error::NotPrivileged => false,
        }
    }
}

} // verus!

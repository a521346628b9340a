use vstd::prelude::*;

use crate::address::Address;

verus! {

/// Every failure the library can report.
///
/// Validation failures (`InvalidAddressFormat`, `InvalidScheduleParameters`,
/// `ProofEmpty`, `PayloadTooLarge`) are recoverable by correcting the input.
/// Transient collaborator failures (`TimeNotYetFinalized`,
/// `TransportUnavailable`) may succeed on a later call; the library never
/// retries on its own. Terminal remote failures (`AccountNotFound`,
/// `SubmissionRejected`) are surfaced as they are. Invariant violations
/// (`InvalidRevision`, `IllegalTransition`) are always rejected. Each variant
/// carries the identifiers a caller needs to correlate the failure with one
/// schedule, account or envelope.
#[derive(Debug, PartialEq, Eq)]
pub enum Error {
    /// The text does not match the canonical address encoding: wrong length,
    /// a character outside the hex alphabet, or a checksum mismatch.
    InvalidAddressFormat,
    /// A schedule creation request with a zero total, a start at or after the
    /// end, or a per-period release amount that would be zero.
    InvalidScheduleParameters,
    /// A schedule revision that is not permitted: the schedule is not in its
    /// releasing window, or the revision would claw back an already-unlocked
    /// amount.
    InvalidRevision { version: u64 },
    /// The ledger rejected the locking transaction for this schedule version.
    SubmissionRejected { version: u64 },
    /// An envelope was requested without proof bytes.
    ProofEmpty,
    /// The payload exceeds the configured maximum size.
    PayloadTooLarge { size: usize, limit: usize },
    /// The requested query time for this address is beyond the ledger's
    /// finalized chain time.
    TimeNotYetFinalized { address: Address, requested: u64 },
    /// The address never appeared in the ledger at or before the query time.
    AccountNotFound { address: Address },
    /// The ledger collaborator could not be reached.
    TransportUnavailable,
    /// A relay operation that is not legal in the attempt's current state.
    IllegalTransition { sequence: u64 },
}

} // verus!

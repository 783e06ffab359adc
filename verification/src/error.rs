//! Error taxonomy of the synchronization core.

use vstd::prelude::*;

verus! {

/// Why the coordinator or one of its parts refused an input.
///
/// Every variant is recoverable for the coordinator itself: bad data is
/// discarded and re-requested, a stalled sync attempt is failed back to its
/// caller, but the event loop keeps running.
#[derive(Clone, Copy, Debug, PartialEq, Eq, Structural)]
pub enum SyncError {
    /// Signatures on a ledger info do not meet quorum under the trusted
    /// epoch state, or the ledger info belongs to another epoch.
    VerificationError,
    /// A malformed, out-of-order or otherwise unusable protocol message:
    /// a chunk that leaves a gap, an empty chunk, a chunk past its proof's
    /// target, or a sync request while another is in flight.
    ProtocolError,
    /// No peer yielded progress within the stall threshold; the active sync
    /// attempt is abandoned with local storage unchanged.
    ProgressTimeoutError,
    /// A commit notification that is inconsistent with local storage
    /// (its ledger info does not certify exactly the new synced version).
    StorageError,
}

} // verus!

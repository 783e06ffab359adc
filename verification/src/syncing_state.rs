//! The per-update snapshot of local ledger progress: the highest certified
//! ledger info, the highest locally materialized version, and the epoch state
//! trusted for the next certificate. The snapshot is never mutated in place;
//! every applied chunk or commit replaces it wholesale.

use vstd::prelude::*;

use crate::error::SyncError;
use crate::ledger::{EpochState, LedgerInfoWithSignatures};

verus! {

/// The locally materialized accumulator and state tree, reduced to what the
/// protocol reads of it: the highest version it covers, or `None` before any
/// transaction has been applied.
#[derive(Clone, Copy, Debug, PartialEq, Eq, Structural)]
pub struct ExecutedTrees {
    pub version: Option<u64>,
}

impl ExecutedTrees {
    /// The highest locally applied version; an empty ledger counts as 0.
    pub open spec fn spec_version(self) -> u64 {
        match self.version {
            Some(v) => v,
            None => 0,
        }
    }

    pub fn new(version: Option<u64>) -> (r: Self)
        ensures
            r.version == version,
    {
        ExecutedTrees { version }
    }

    pub fn version(&self) -> (r: Option<u64>)
        ensures
            r == self.version,
    {
        self.version
    }
}

/// Snapshot of synchronization progress.
///
/// * `committed_ledger_info` is the highest ledger info for which storage
///   holds all state up to its version, with quorum signatures.
/// * `synced_trees` is the highest locally materialized state, which may run
///   ahead of `committed_ledger_info` (applied but not yet certified).
/// * `trusted_epoch_state` is the validator set that must sign the next
///   accepted ledger info: the next-epoch state embedded in the committed
///   ledger info if it ends its epoch, else the epoch state given at
///   construction.
#[derive(Clone, Debug)]
pub struct SyncingState {
    pub committed_ledger_info: LedgerInfoWithSignatures,
    pub synced_trees: ExecutedTrees,
    pub trusted_epoch_state: EpochState,
}

impl SyncingState {
    pub open spec fn spec_committed_version(self) -> u64 {
        self.committed_ledger_info.ledger_info.version
    }

    pub open spec fn spec_committed_epoch(self) -> u64 {
        self.committed_ledger_info.ledger_info.epoch
    }

    pub open spec fn spec_synced_version(self) -> u64 {
        self.synced_trees.spec_version()
    }

    pub open spec fn spec_trusted_epoch(self) -> u64 {
        self.trusted_epoch_state.epoch
    }

    /// The snapshot invariant: materialized state never lags the certified
    /// state, and the trusted epoch state is exactly the one the committed
    /// ledger info hands over (its own epoch mid-epoch, the next at a
    /// boundary).
    pub open spec fn wf(self) -> bool {
        &&& self.committed_ledger_info.wf()
        &&& self.trusted_epoch_state.wf()
        &&& self.spec_synced_version() >= self.spec_committed_version()
        &&& match self.committed_ledger_info.ledger_info.next_epoch_state {
            Some(next) => self.trusted_epoch_state.equiv(next),
            None => self.trusted_epoch_state.epoch == self.spec_committed_epoch(),
        }
    }

    /// Builds a fresh snapshot. The trusted epoch state is re-derived from
    /// the committed ledger info: an epoch-ending ledger info rotates trust
    /// to the validator set it embeds, otherwise `current_epoch_state`
    /// (which must belong to the committed epoch) stays authoritative.
    pub fn new(
        committed_ledger_info: LedgerInfoWithSignatures,
        synced_trees: ExecutedTrees,
        current_epoch_state: EpochState,
    ) -> (r: Self)
        requires
            committed_ledger_info.wf(),
            current_epoch_state.wf(),
            committed_ledger_info.ledger_info.next_epoch_state is None
                ==> current_epoch_state.epoch == committed_ledger_info.ledger_info.epoch,
            synced_trees.spec_version() >= committed_ledger_info.ledger_info.version,
        ensures
            r.committed_ledger_info == committed_ledger_info,
            r.synced_trees == synced_trees,
            r.trusted_epoch_state.equiv(
                match committed_ledger_info.ledger_info.next_epoch_state {
                    Some(next) => next,
                    None => current_epoch_state,
                },
            ),
            r.wf(),
    {
        let trusted_epoch_state = match &committed_ledger_info.ledger_info.next_epoch_state {
            Some(next) => next.duplicate(),
            None => current_epoch_state,
        };
        SyncingState { committed_ledger_info, synced_trees, trusted_epoch_state }
    }

    /// The snapshot after more transactions were materialized locally
    /// without a new certificate: only the synced trees move forward.
    pub fn advance_synced(&mut self, synced_trees: ExecutedTrees)
        requires
            old(self).wf(),
            synced_trees.spec_version() >= old(self).spec_committed_version(),
        ensures
            final(self).committed_ledger_info == old(self).committed_ledger_info,
            final(self).trusted_epoch_state == old(self).trusted_epoch_state,
            final(self).synced_trees == synced_trees,
            final(self).wf(),
    {
        self.synced_trees = synced_trees;
    }

    pub fn committed_epoch(&self) -> (r: u64)
        ensures
            r == self.spec_committed_epoch(),
    {
        self.committed_ledger_info.ledger_info.epoch
    }

    pub fn committed_ledger_info(&self) -> (r: &LedgerInfoWithSignatures)
        ensures
            r == &self.committed_ledger_info,
    {
        &self.committed_ledger_info
    }

    pub fn committed_version(&self) -> (r: u64)
        ensures
            r == self.spec_committed_version(),
    {
        self.committed_ledger_info.ledger_info.version
    }

    /// The highest version available in local storage, even if not yet
    /// covered by a certified ledger info.
    pub fn synced_version(&self) -> (r: u64)
        ensures
            r == self.spec_synced_version(),
    {
        match self.synced_trees.version {
            Some(v) => v,
            None => 0,
        }
    }

    pub fn trusted_epoch(&self) -> (r: u64)
        ensures
            r == self.spec_trusted_epoch(),
    {
        self.trusted_epoch_state.epoch
    }

    /// Verifies `ledger_info` against the trusted epoch state.
    pub fn verify_ledger_info(&self, ledger_info: &LedgerInfoWithSignatures) -> (r: Result<
        (),
        SyncError,
    >)
        ensures
            r is Ok <==> self.trusted_epoch_state.valid_signatures(*ledger_info),
            r is Err ==> r == Err::<(), SyncError>(SyncError::VerificationError),
    {
        self.trusted_epoch_state.verify(ledger_info)
    }

    /// Once an epoch boundary has rotated trust to a new validator set, a
    /// certificate carrying any other epoch number — the old epoch's
    /// included — can never verify against this snapshot: signatures from a
    /// superseded epoch are rejected, not silently accepted.
    pub proof fn lemma_stale_epoch_rejected(self, ledger_info: LedgerInfoWithSignatures)
        requires
            ledger_info.ledger_info.epoch != self.spec_trusted_epoch(),
        ensures
            !self.trusted_epoch_state.valid_signatures(ledger_info),
    {
    }
}

} // verus!

//! The synchronization coordinator: a single-threaded state machine that
//! owns the progress snapshot and the peer table, consumes one inbound event
//! at a time (sync requests, chunk responses, commit notifications, peer
//! liveness, progress ticks) and decides what to apply and what to send.
//!
//! Each handler takes plain values and returns the action to perform — the
//! chunk request to put on the wire, whether a waiting caller is to be
//! answered — so the surrounding event loop does no deciding of its own.

use vstd::prelude::*;

use crate::chunk::{ChunkRequest, ChunkResponse, TargetSelector};
use crate::error::SyncError;
use crate::ledger::{LedgerInfoWithSignatures, Transaction};
use crate::request_manager::RequestManager;
use crate::syncing_state::{ExecutedTrees, SyncingState};

verus! {

/// The configuration surface of the coordinator.
#[derive(Clone, Copy, Debug, PartialEq, Eq, Structural)]
pub struct SyncConfig {
    /// Upper bound on transactions per chunk request; at least 1.
    pub chunk_limit: u64,
    /// How long to wait on one outstanding chunk request before retrying
    /// with another peer.
    pub request_timeout: u64,
    /// How long a whole sync attempt may go without progress before it is
    /// failed back to the caller.
    pub stall_threshold: u64,
}

impl SyncConfig {
    pub open spec fn wf(self) -> bool {
        self.chunk_limit >= 1
    }
}

/// A caller-issued sync target, held from submission until it is fulfilled
/// or abandoned. At most one is outstanding at a time.
#[derive(Clone, Debug)]
pub struct PendingSyncRequest {
    /// The certified ledger info the caller wants storage to reach.
    pub target: LedgerInfoWithSignatures,
    /// Last time this attempt made progress, for stall detection.
    pub last_progress_time: u64,
}

/// Bookkeeping for the one chunk request currently on the wire.
#[derive(Clone, Copy, Debug, PartialEq, Eq, Structural)]
pub struct InFlightRequest {
    pub peer: u64,
    pub sent_time: u64,
}

/// A chunk request together with the peer chosen to receive it.
#[derive(Clone, Copy, Debug, PartialEq, Eq, Structural)]
pub struct SentRequest {
    pub peer: u64,
    pub request: ChunkRequest,
}

/// What handling a new sync request decided.
#[derive(Clone, Copy, Debug)]
pub enum SyncStartOutcome {
    /// The target is already certified locally; answer the caller now.
    CompletedImmediately,
    /// The target was accepted; a chunk request goes out if a peer was
    /// available.
    InProgress(Option<SentRequest>),
}

/// What handling a chunk response decided.
#[derive(Clone, Copy, Debug)]
pub enum ChunkOutcome {
    /// The chunk was already subsumed by local state; nothing changed and
    /// the sender is not penalized.
    Ignored,
    /// The chunk was validated and applied.
    Applied { target_reached: bool, next_request: Option<SentRequest> },
}

/// What a progress tick decided.
#[derive(Clone, Copy, Debug)]
pub enum ProgressOutcome {
    NoAction,
    /// The outstanding chunk request timed out: its peer was penalized and
    /// the request was reissued if an eligible peer remained.
    Resent(Option<SentRequest>),
    /// The active sync attempt made no progress within the stall threshold
    /// and is abandoned; answer its caller with the error carried here.
    SyncFailed(SyncError),
}

/// What a commit notification decided.
#[derive(Clone, Copy, Debug)]
pub struct CommitOutcome {
    /// Whether this commit also closed the in-flight sync target; if so,
    /// answer that caller with success.
    pub sync_fulfilled: bool,
}

/// The coordinator state machine. `pending` distinguishes the two states:
/// idle (passively staying near the head) and actively syncing toward a
/// caller's target.
pub struct StateSyncCoordinator {
    state: SyncingState,
    request_manager: RequestManager,
    pending: Option<PendingSyncRequest>,
    in_flight: Option<InFlightRequest>,
    config: SyncConfig,
    waypoint_version: u64,
}

impl StateSyncCoordinator {
    pub closed spec fn spec_state(self) -> SyncingState {
        self.state
    }

    pub closed spec fn spec_request_manager(self) -> RequestManager {
        self.request_manager
    }

    pub closed spec fn spec_pending(self) -> Option<PendingSyncRequest> {
        self.pending
    }

    pub closed spec fn spec_in_flight(self) -> Option<InFlightRequest> {
        self.in_flight
    }

    pub closed spec fn spec_config(self) -> SyncConfig {
        self.config
    }

    pub closed spec fn spec_waypoint_version(self) -> u64 {
        self.waypoint_version
    }

    /// The machine invariant: the snapshot and peer table are well formed,
    /// and while a sync target is pending its version is strictly above the
    /// committed one — success is declared exactly when the committed ledger
    /// info reaches the target.
    pub open spec fn wf(self) -> bool {
        &&& self.spec_state().wf()
        &&& self.spec_request_manager().wf()
        &&& self.spec_config().wf()
        &&& self.spec_pending() matches Some(p) ==> {
            &&& p.target.wf()
            &&& p.target.ledger_info.version > self.spec_state().spec_committed_version()
        }
    }

    /// The chunk request the coordinator would issue from its current
    /// state: everything after what is locally materialized, aimed at the
    /// pending target if any, else at the waypoint until it is reached,
    /// else at whatever is newest.
    pub open spec fn spec_next_request(self) -> ChunkRequest {
        ChunkRequest {
            known_version: self.spec_state().spec_synced_version(),
            known_epoch: self.spec_state().spec_trusted_epoch(),
            target: match self.spec_pending() {
                Some(p) => TargetSelector::Version(p.target.ledger_info.version),
                None => if self.spec_state().spec_synced_version()
                    < self.spec_waypoint_version() {
                    TargetSelector::Waypoint(self.spec_waypoint_version())
                } else {
                    TargetSelector::HighestAvailable
                },
            },
            limit: self.spec_config().chunk_limit,
        }
    }

    /// Seeds the machine from whatever snapshot local storage reports at
    /// startup. The coordinator starts idle.
    pub fn new(
        initial_state: SyncingState,
        request_manager: RequestManager,
        config: SyncConfig,
        waypoint_version: u64,
    ) -> (r: Self)
        requires
            initial_state.wf(),
            request_manager.wf(),
            config.wf(),
        ensures
            r.wf(),
            r.spec_state() == initial_state,
            r.spec_request_manager() == request_manager,
            r.spec_pending() is None,
            r.spec_in_flight() is None,
            r.spec_config() == config,
            r.spec_waypoint_version() == waypoint_version,
    {
        StateSyncCoordinator {
            state: initial_state,
            request_manager,
            pending: None,
            in_flight: None,
            config,
            waypoint_version,
        }
    }

    /// The current progress snapshot, for introspection; callers copy what
    /// they need and never mutate it.
    pub fn sync_state(&self) -> (r: &SyncingState)
        ensures
            r == &self.spec_state(),
    {
        &self.state
    }

    /// The peer the outstanding chunk request was sent to, if any.
    pub fn in_flight_peer(&self) -> (r: Option<u64>)
        ensures
            match r {
                Some(p) => self.spec_in_flight() matches Some(f) && f.peer == p,
                None => self.spec_in_flight() is None,
            },
    {
        match &self.in_flight {
            Some(f) => Some(f.peer),
            None => None,
        }
    }

    /// The version of the sync target currently being worked toward.
    pub fn pending_target_version(&self) -> (r: Option<u64>)
        ensures
            match r {
                Some(v) => self.spec_pending() matches Some(p) && p.target.ledger_info.version == v,
                None => self.spec_pending() is None,
            },
    {
        match &self.pending {
            Some(p) => Some(p.target.ledger_info.version),
            None => None,
        }
    }

    /// Whether the node has caught up with its configured waypoint; a
    /// parked initialization query is answered once this turns true.
    pub fn is_initialized(&self) -> (r: bool)
        ensures
            r == (self.spec_state().spec_synced_version() >= self.spec_waypoint_version()),
    {
        self.state.synced_version() >= self.waypoint_version
    }

    /// The responsiveness score the request manager holds for `peer`.
    pub fn peer_score(&self, peer: u64) -> (r: Option<u64>)
        requires
            self.wf(),
        ensures
            match r {
                Some(s) => self.spec_request_manager().known_peer(peer) && s
                    == self.spec_request_manager().score_of(peer),
                None => !self.spec_request_manager().known_peer(peer),
            },
    {
        self.request_manager.peer_score(peer)
    }

    /// A peer connected or was configured upstream: admit it.
    pub fn process_new_peer(&mut self, peer: u64)
        requires
            old(self).wf(),
        ensures
            final(self).wf(),
            final(self).spec_state() == old(self).spec_state(),
            final(self).spec_pending() == old(self).spec_pending(),
            final(self).spec_in_flight() == old(self).spec_in_flight(),
            final(self).spec_config() == old(self).spec_config(),
            final(self).spec_waypoint_version() == old(self).spec_waypoint_version(),
            final(self).spec_request_manager().known_peer(peer),
            final(self).spec_request_manager().spec_min_score() == old(self).spec_request_manager().spec_min_score(),
            old(self).spec_request_manager().known_peer(peer) ==> final(self).spec_request_manager().spec_peers() == old(self).spec_request_manager().spec_peers(),
    {
        self.request_manager.add_peer(peer);
    }

    /// A peer disconnected: forget it.
    pub fn process_lost_peer(&mut self, peer: u64)
        requires
            old(self).wf(),
        ensures
            final(self).wf(),
            final(self).spec_state() == old(self).spec_state(),
            final(self).spec_pending() == old(self).spec_pending(),
            final(self).spec_in_flight() == old(self).spec_in_flight(),
            final(self).spec_config() == old(self).spec_config(),
            final(self).spec_waypoint_version() == old(self).spec_waypoint_version(),
            !final(self).spec_request_manager().known_peer(peer),
    {
        self.request_manager.remove_peer(peer);
    }

    /// Picks the best eligible peer and hands it the next chunk request,
    /// stamping the peer table and the in-flight slot. Scores are never
    /// changed here, so the selection contract of
    /// [`RequestManager::pick_peer`] carries over unchanged.
    fn send_chunk_request(&mut self, now: u64) -> (r: Option<SentRequest>)
        requires
            old(self).wf(),
        ensures
            final(self).wf(),
            final(self).spec_state() == old(self).spec_state(),
            final(self).spec_pending() == old(self).spec_pending(),
            final(self).spec_config() == old(self).spec_config(),
            final(self).spec_waypoint_version() == old(self).spec_waypoint_version(),
            final(self).spec_request_manager().spec_min_score() == old(self).spec_request_manager().spec_min_score(),
            final(self).spec_request_manager().spec_peers().len() == old(self).spec_request_manager().spec_peers().len(),
            forall|j: int|
                0 <= j < old(self).spec_request_manager().spec_peers().len() ==> {
                    &&& (#[trigger] final(self).spec_request_manager().spec_peers()[j]).id == old(self).spec_request_manager().spec_peers()[j].id
                    &&& final(self).spec_request_manager().spec_peers()[j].score == old(self).spec_request_manager().spec_peers()[j].score
                },
            match r {
                Some(sr) => {
                    &&& sr.request == old(self).spec_next_request()
                    &&& old(self).spec_request_manager().eligible(sr.peer)
                    &&& final(self).spec_in_flight() == Some(
                        InFlightRequest { peer: sr.peer, sent_time: now },
                    )
                },
                None => {
                    &&& final(self).spec_in_flight() is None
                    &&& forall|j: int|
                        0 <= j < old(self).spec_request_manager().spec_peers().len() ==> (
                        #[trigger] old(self).spec_request_manager().spec_peers()[j]).score < old(self).spec_request_manager().spec_min_score()
                },
            },
    {
        let request = ChunkRequest {
            known_version: self.state.synced_version(),
            known_epoch: self.state.trusted_epoch(),
            target: match &self.pending {
                Some(p) => TargetSelector::Version(p.target.ledger_info.version),
                None => if self.state.synced_version() < self.waypoint_version {
                    TargetSelector::Waypoint(self.waypoint_version)
                } else {
                    TargetSelector::HighestAvailable
                },
            },
            limit: self.config.chunk_limit,
        };
        match self.request_manager.pick_peer() {
            Some(peer) => {
                self.request_manager.record_request(peer, now);
                self.in_flight = Some(InFlightRequest { peer, sent_time: now });
                Some(SentRequest { peer, request })
            },
            None => {
                self.in_flight = None;
                None
            },
        }
    }

    /// A caller asks to sync to `target`.
    ///
    /// Exactly one sync may be in flight: a second request is refused with
    /// `ProtocolError` and changes nothing. A target at or below the
    /// committed version is answered successfully on the spot. Otherwise the
    /// target's signatures must meet quorum under the trusted epoch state,
    /// or the request is refused with `VerificationError` and storage is
    /// untouched. A verified target within what is already materialized
    /// locally is committed immediately; a target ahead of local state
    /// becomes the pending sync and a chunk request goes out.
    pub fn process_sync_request(&mut self, target: LedgerInfoWithSignatures, now: u64) -> (r:
        Result<SyncStartOutcome, SyncError>)
        requires
            old(self).wf(),
        ensures
            final(self).wf(),
            final(self).spec_config() == old(self).spec_config(),
            final(self).spec_waypoint_version() == old(self).spec_waypoint_version(),
            old(self).spec_pending() is Some ==> r == Err::<SyncStartOutcome, SyncError>(
                SyncError::ProtocolError,
            ) && *final(self) == *old(self),
            old(self).spec_pending() is None && target.ledger_info.version <= old(self).spec_state().spec_committed_version() ==> (r matches Ok(
                SyncStartOutcome::CompletedImmediately,
            )) && *final(self) == *old(self),
            old(self).spec_pending() is None && target.ledger_info.version > old(self).spec_state().spec_committed_version() && !(target.wf() && old(self).spec_state().trusted_epoch_state.valid_signatures(target)) ==> r == Err::<
                SyncStartOutcome,
                SyncError,
            >(SyncError::VerificationError) && *final(self) == *old(self),
            r is Err ==> *final(self) == *old(self),
            old(self).spec_pending() is None && target.wf() && old(self).spec_state().trusted_epoch_state.valid_signatures(target) && old(self).spec_state().spec_committed_version() < target.ledger_info.version
                <= old(self).spec_state().spec_synced_version() ==> {
                &&& r matches Ok(SyncStartOutcome::CompletedImmediately)
                &&& final(self).spec_state().committed_ledger_info == target
                &&& final(self).spec_state().spec_committed_version() >= target.ledger_info.version
                &&& final(self).spec_state().synced_trees == old(self).spec_state().synced_trees
                &&& final(self).spec_pending() is None
            },
            old(self).spec_pending() is None && target.wf() && old(self).spec_state().trusted_epoch_state.valid_signatures(target)
                && target.ledger_info.version > old(self).spec_state().spec_synced_version() ==> {
                &&& r matches Ok(SyncStartOutcome::InProgress(next))
                &&& final(self).spec_state() == old(self).spec_state()
                &&& final(self).spec_pending() matches Some(p) && p.target == target
                    && p.last_progress_time == now
                &&& next matches Some(sr) ==> {
                    &&& sr.request.known_version == old(self).spec_state().spec_synced_version()
                    &&& sr.request.known_epoch == old(self).spec_state().spec_trusted_epoch()
                    &&& sr.request.target == TargetSelector::Version(target.ledger_info.version)
                    &&& sr.request.limit == old(self).spec_config().chunk_limit
                    &&& old(self).spec_request_manager().eligible(sr.peer)
                }
            },
    {
        if self.pending.is_some() {
            return Err(SyncError::ProtocolError);
        }
        let target_version = target.ledger_info.version;
        if target_version <= self.state.committed_version() {
            return Ok(SyncStartOutcome::CompletedImmediately);
        }
        if !ledger_info_shape_ok(&target) {
            return Err(SyncError::VerificationError);
        }
        if self.state.verify_ledger_info(&target).is_err() {
            return Err(SyncError::VerificationError);
        }
        if target_version <= self.state.synced_version() {
            // Everything up to the target is already materialized locally;
            // the verified target certifies it, so commit it on the spot.
            let trees = self.state.synced_trees;
            let trusted = self.state.trusted_epoch_state.duplicate();
            self.state = SyncingState::new(target, trees, trusted);
            return Ok(SyncStartOutcome::CompletedImmediately);
        }
        self.pending = Some(PendingSyncRequest { target, last_progress_time: now });
        let next = self.send_chunk_request(now);
        Ok(SyncStartOutcome::InProgress(next))
    }
    /// A chunk response arrived from `peer`.
    ///
    /// A chunk whose last version is already materialized locally is a
    /// harmless duplicate: it changes nothing and costs the sender nothing.
    /// Anything else must carry a certificate that verifies under the
    /// trusted epoch state (else `VerificationError`), start exactly one
    /// past the synced version and stay within its certificate (else
    /// `ProtocolError`); both failures are penalized and change no ledger
    /// state. A chunk that passes is applied: the synced version advances to
    /// its last transaction, and when that reaches the certificate's version
    /// the certificate is committed — rotating trust to the next epoch's
    /// validator set if it ends its epoch. A pending sync whose target the
    /// new committed version reaches is fulfilled; otherwise the next chunk
    /// request goes out.
    pub fn process_chunk_response(&mut self, peer: u64, response: ChunkResponse, now: u64) -> (r:
        Result<ChunkOutcome, SyncError>)
        requires
            old(self).wf(),
        ensures
            final(self).wf(),
            final(self).spec_config() == old(self).spec_config(),
            final(self).spec_waypoint_version() == old(self).spec_waypoint_version(),
            r is Err ==> {
                &&& final(self).spec_state() == old(self).spec_state()
                &&& final(self).spec_pending() == old(self).spec_pending()
                &&& final(self).spec_in_flight() == old(self).spec_in_flight()
                &&& final(self).spec_request_manager().penalized_from(
                    old(self).spec_request_manager(),
                    peer,
                )
            },
            response.txns@.len() == 0 ==> r == Err::<ChunkOutcome, SyncError>(
                SyncError::ProtocolError,
            ),
            chunk_subsumed(old(self).spec_state(), response) ==> (r matches Ok(
                ChunkOutcome::Ignored,
            )) && *final(self) == *old(self),
            response.txns@.len() >= 1 && !chunk_subsumed(old(self).spec_state(), response)
                && !chunk_verifiable(old(self).spec_state(), response) ==> r == Err::<
                ChunkOutcome,
                SyncError,
            >(SyncError::VerificationError),
            response.txns@.len() >= 1 && !chunk_subsumed(old(self).spec_state(), response)
                && chunk_verifiable(old(self).spec_state(), response) && !chunk_applicable(
                old(self).spec_state(),
                response,
            ) ==> r == Err::<ChunkOutcome, SyncError>(SyncError::ProtocolError),
            chunk_applicable(old(self).spec_state(), response) ==> {
                &&& (r matches Ok(ChunkOutcome::Applied { target_reached, next_request }))
                &&& final(self).spec_state().spec_synced_version() == response.spec_last_version()
                &&& response.first_version == old(self).spec_state().spec_synced_version() + 1
                &&& if response.spec_last_version() == response.target_li.ledger_info.version {
                    &&& final(self).spec_state().committed_ledger_info == response.target_li
                    &&& match response.target_li.ledger_info.next_epoch_state {
                        Some(next) => final(self).spec_state().trusted_epoch_state.equiv(next),
                        None => final(self).spec_state().trusted_epoch_state.equiv(
                            old(self).spec_state().trusted_epoch_state,
                        ),
                    }
                } else {
                    &&& final(self).spec_state().committed_ledger_info == old(
                        self,
                    ).spec_state().committed_ledger_info
                    &&& final(self).spec_state().trusted_epoch_state == old(
                        self,
                    ).spec_state().trusted_epoch_state
                }
                &&& final(self).spec_request_manager().scores_rewarded_from(
                    old(self).spec_request_manager(),
                    peer,
                )
            },
            chunk_applicable(old(self).spec_state(), response) ==> match old(self).spec_pending() {
                Some(p) => {
                    if response.spec_last_version() == response.target_li.ledger_info.version
                        && response.target_li.ledger_info.version >= p.target.ledger_info.version {
                        &&& final(self).spec_pending() is None
                        &&& final(self).spec_state().spec_committed_version()
                            >= p.target.ledger_info.version
                        &&& r matches Ok(
                            ChunkOutcome::Applied { target_reached: true, next_request: None },
                        )
                    } else {
                        &&& final(self).spec_pending() matches Some(q) && q.target == p.target
                            && q.last_progress_time == now
                        &&& r matches Ok(
                            ChunkOutcome::Applied { target_reached: false, next_request: _ },
                        )
                    }
                },
                None => final(self).spec_pending() is None && (r matches Ok(
                    ChunkOutcome::Applied { target_reached: false, next_request: _ },
                )),
            },
            r matches Ok(ChunkOutcome::Applied { target_reached: _, next_request: Some(sr) })
                ==> {
                &&& sr.request.known_version == final(self).spec_state().spec_synced_version()
                &&& sr.request.known_epoch == final(self).spec_state().spec_trusted_epoch()
                &&& sr.request.limit == old(self).spec_config().chunk_limit
            },
    {
        let txn_count = response.txns.len();
        if txn_count == 0 {
            self.request_manager.process_invalid_response(peer);
            return Err(SyncError::ProtocolError);
        }
        let len_minus_one: u64 = txn_count as u64 - 1;
        let synced = self.state.synced_version();
        if response.first_version <= synced && len_minus_one <= synced - response.first_version {
            return Ok(ChunkOutcome::Ignored);
        }
        if !ledger_info_shape_ok(&response.target_li) || self.state.verify_ledger_info(
            &response.target_li,
        ).is_err() {
            self.request_manager.process_invalid_response(peer);
            return Err(SyncError::VerificationError);
        }
        if synced == u64::MAX || response.first_version != synced + 1 {
            self.request_manager.process_invalid_response(peer);
            return Err(SyncError::ProtocolError);
        }
        let liv = response.target_li.ledger_info.version;
        if !(response.first_version <= liv && len_minus_one <= liv - response.first_version) {
            self.request_manager.process_invalid_response(peer);
            return Err(SyncError::ProtocolError);
        }
        let new_synced = response.first_version + len_minus_one;
        self.request_manager.process_valid_response(peer);
        self.in_flight = None;
        let trees = ExecutedTrees::new(Some(new_synced));
        if new_synced == liv {
            let trusted = self.state.trusted_epoch_state.duplicate();
            self.state = SyncingState::new(response.target_li, trees, trusted);
        } else {
            self.state.advance_synced(trees);
        }
        let mut fulfilled = false;
        match &self.pending {
            Some(p) => {
                if self.state.committed_version() >= p.target.ledger_info.version {
                    fulfilled = true;
                }
            },
            None => {},
        }
        if fulfilled {
            self.pending = None;
            return Ok(ChunkOutcome::Applied { target_reached: true, next_request: None });
        }
        let more_needed = match &mut self.pending {
            Some(p) => {
                p.last_progress_time = now;
                true
            },
            None => new_synced < liv,
        };
        let next_request = if more_needed {
            self.send_chunk_request(now)
        } else {
            None
        };
        Ok(ChunkOutcome::Applied { target_reached: false, next_request })
    }
    /// Local consensus committed `committed_txns` with certificate
    /// `committed_li`: apply directly — no chunk request, no peer involved,
    /// nothing waits on the network. The certificate must belong to the
    /// trusted epoch and certify exactly the new synced version, else the
    /// notification is refused as `StorageError` and nothing changes. On
    /// success both the synced and the committed version land on the
    /// certificate's version; a pending sync target at or below it is
    /// fulfilled.
    pub fn process_commit(
        &mut self,
        committed_txns: Vec<Transaction>,
        committed_li: LedgerInfoWithSignatures,
    ) -> (r: Result<CommitOutcome, SyncError>)
        requires
            old(self).wf(),
        ensures
            final(self).wf(),
            final(self).spec_config() == old(self).spec_config(),
            final(self).spec_waypoint_version() == old(self).spec_waypoint_version(),
            !commit_consistent(old(self).spec_state(), committed_txns@, committed_li) ==> r
                == Err::<CommitOutcome, SyncError>(SyncError::StorageError) && *final(self) == *old(
                self,
            ),
            commit_consistent(old(self).spec_state(), committed_txns@, committed_li) ==> {
                &&& final(self).spec_state().committed_ledger_info == committed_li
                &&& final(self).spec_state().spec_synced_version()
                    == committed_li.ledger_info.version
                &&& final(self).spec_state().spec_committed_version()
                    == committed_li.ledger_info.version
                &&& match committed_li.ledger_info.next_epoch_state {
                    Some(next) => final(self).spec_state().trusted_epoch_state.equiv(next),
                    None => final(self).spec_state().trusted_epoch_state.equiv(
                        old(self).spec_state().trusted_epoch_state,
                    ),
                }
                &&& final(self).spec_request_manager() == old(self).spec_request_manager()
                &&& final(self).spec_in_flight() == old(self).spec_in_flight()
                &&& match old(self).spec_pending() {
                    Some(p) => {
                        if committed_li.ledger_info.version >= p.target.ledger_info.version {
                            final(self).spec_pending() is None && r == Ok::<
                                CommitOutcome,
                                SyncError,
                            >(CommitOutcome { sync_fulfilled: true })
                        } else {
                            final(self).spec_pending() == old(self).spec_pending() && r == Ok::<
                                CommitOutcome,
                                SyncError,
                            >(CommitOutcome { sync_fulfilled: false })
                        }
                    },
                    None => final(self).spec_pending() is None && r == Ok::<
                        CommitOutcome,
                        SyncError,
                    >(CommitOutcome { sync_fulfilled: false }),
                }
            },
    {
        let synced = self.state.synced_version();
        let len: u64 = committed_txns.len() as u64;
        if !ledger_info_shape_ok(&committed_li) {
            return Err(SyncError::StorageError);
        }
        if committed_li.ledger_info.epoch != self.state.trusted_epoch() {
            return Err(SyncError::StorageError);
        }
        if len > u64::MAX - synced {
            return Err(SyncError::StorageError);
        }
        if committed_li.ledger_info.version != synced + len {
            return Err(SyncError::StorageError);
        }
        let new_version = committed_li.ledger_info.version;
        let trees = ExecutedTrees::new(Some(new_version));
        let trusted = self.state.trusted_epoch_state.duplicate();
        self.state = SyncingState::new(committed_li, trees, trusted);
        let mut fulfilled = false;
        match &self.pending {
            Some(p) => {
                if new_version >= p.target.ledger_info.version {
                    fulfilled = true;
                }
            },
            None => {},
        }
        if fulfilled {
            self.pending = None;
        }
        Ok(CommitOutcome { sync_fulfilled: fulfilled })
    }

    /// A sync attempt is stalled when it has gone a full stall threshold
    /// without progress.
    pub open spec fn sync_stalled(self, now: u64) -> bool {
        self.spec_pending() matches Some(p) && now >= p.last_progress_time
            + self.spec_config().stall_threshold
    }

    /// The one outstanding chunk request has waited a full request timeout.
    pub open spec fn request_timed_out(self, now: u64) -> bool {
        self.spec_in_flight() matches Some(f) && now >= f.sent_time
            + self.spec_config().request_timeout
    }

    /// The periodic progress check.
    ///
    /// A stalled sync attempt is abandoned: its caller gets
    /// `ProgressTimeoutError` and — decisive for the caller's guarantees —
    /// the ledger state is left exactly as it was, so a failed sync leaks
    /// nothing. Short of a stall, a timed-out chunk request costs its peer
    /// one penalty and is reissued to the best peer still eligible.
    pub fn check_progress(&mut self, now: u64) -> (r: ProgressOutcome)
        requires
            old(self).wf(),
        ensures
            final(self).wf(),
            final(self).spec_state() == old(self).spec_state(),
            final(self).spec_config() == old(self).spec_config(),
            final(self).spec_waypoint_version() == old(self).spec_waypoint_version(),
            old(self).sync_stalled(now) ==> {
                &&& r == ProgressOutcome::SyncFailed(SyncError::ProgressTimeoutError)
                &&& final(self).spec_pending() is None
                &&& final(self).spec_in_flight() is None
                &&& final(self).spec_request_manager() == old(self).spec_request_manager()
            },
            !old(self).sync_stalled(now) && old(self).request_timed_out(now) ==> {
                &&& r matches ProgressOutcome::Resent(opt)
                &&& final(self).spec_pending() == old(self).spec_pending()
                &&& final(self).spec_request_manager().scores_penalized_from(
                    old(self).spec_request_manager(),
                    old(self).spec_in_flight()->Some_0.peer,
                )
                &&& opt matches Some(sr) ==> {
                    &&& sr.request.known_version == old(self).spec_state().spec_synced_version()
                    &&& sr.request.known_epoch == old(self).spec_state().spec_trusted_epoch()
                    &&& sr.request.limit == old(self).spec_config().chunk_limit
                    &&& final(self).spec_request_manager().eligible(sr.peer)
                    &&& final(self).spec_in_flight() == Some(
                        InFlightRequest { peer: sr.peer, sent_time: now },
                    )
                }
                &&& opt is None ==> final(self).spec_in_flight() is None
            },
            !old(self).sync_stalled(now) && !old(self).request_timed_out(now) ==> r is NoAction
                && *final(self) == *old(self),
    {
        let stalled = match &self.pending {
            Some(p) => now >= p.last_progress_time && now - p.last_progress_time
                >= self.config.stall_threshold,
            None => false,
        };
        if stalled {
            self.pending = None;
            self.in_flight = None;
            return ProgressOutcome::SyncFailed(SyncError::ProgressTimeoutError);
        }
        let timed_out_peer: Option<u64> = match &self.in_flight {
            Some(f) => if now >= f.sent_time && now - f.sent_time >= self.config.request_timeout {
                Some(f.peer)
            } else {
                None
            },
            None => None,
        };
        match timed_out_peer {
            Some(peer) => {
                self.request_manager.process_timeout(peer);
                let ghost mid = *self;
                let opt = self.send_chunk_request(now);
                proof {
                    match opt {
                        Some(sr) => {
                            let i = mid.spec_request_manager().index_of(sr.peer);
                            assert(mid.spec_request_manager().spec_peers()[i].id == sr.peer);
                            self.spec_request_manager().lemma_index_of(i);
                        },
                        None => {},
                    }
                }
                ProgressOutcome::Resent(opt)
            },
            None => ProgressOutcome::NoAction,
        }
    }
}

/// A commit notification is consistent with the local snapshot when its
/// certificate is well shaped, belongs to the trusted epoch, and certifies
/// exactly the transactions it delivers: the synced version plus their
/// count.
pub open spec fn commit_consistent(
    st: SyncingState,
    txns: Seq<Transaction>,
    li: LedgerInfoWithSignatures,
) -> bool {
    &&& li.wf()
    &&& li.ledger_info.epoch == st.spec_trusted_epoch()
    &&& li.ledger_info.version == st.spec_synced_version() + txns.len()
}

/// The chunk's whole range is already materialized locally: a duplicate or
/// fully overlapping delivery that must be idempotent.
pub open spec fn chunk_subsumed(st: SyncingState, resp: ChunkResponse) -> bool {
    resp.txns@.len() >= 1 && resp.spec_last_version() <= st.spec_synced_version()
}

/// The chunk's certificate is well shaped and meets quorum under the epoch
/// state `st` trusts.
pub open spec fn chunk_verifiable(st: SyncingState, resp: ChunkResponse) -> bool {
    resp.target_li.wf() && st.trusted_epoch_state.valid_signatures(resp.target_li)
}

/// The chunk extends local state by exactly the next contiguous run of
/// transactions, without reaching past its certificate.
pub open spec fn chunk_applicable(st: SyncingState, resp: ChunkResponse) -> bool {
    &&& resp.txns@.len() >= 1
    &&& chunk_verifiable(st, resp)
    &&& resp.first_version == st.spec_synced_version() + 1
    &&& resp.spec_last_version() <= resp.target_li.ledger_info.version
}

/// While a sync target is pending, nothing at or past it has been
/// committed: together with the handlers' contracts — every error path
/// leaves the committed ledger info where it was — this is why a failed
/// `sync_to` leaks no partial application past its caller.
pub proof fn lemma_pending_target_not_committed(c: StateSyncCoordinator)
    requires
        c.wf(),
        c.spec_pending() is Some,
    ensures
        c.spec_state().spec_committed_version()
            < c.spec_pending()->Some_0.target.ledger_info.version,
{
}

/// Structural sanity of a ledger info: an embedded next-epoch state must
/// carry the successor epoch number and a nonzero quorum.
pub fn ledger_info_shape_ok(li: &LedgerInfoWithSignatures) -> (r: bool)
    ensures
        r == li.wf(),
{
    match &li.ledger_info.next_epoch_state {
        Some(next) => li.ledger_info.epoch < u64::MAX && next.epoch == li.ledger_info.epoch + 1
            && next.quorum >= 1,
        None => true,
    }
}

} // verus!

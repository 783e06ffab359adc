use state_sync::chunk::{ChunkResponse, TargetSelector};
use state_sync::coordinator::{
    ChunkOutcome, ProgressOutcome, StateSyncCoordinator, SyncConfig, SyncStartOutcome,
};
use state_sync::error::SyncError;
use state_sync::ledger::{EpochState, LedgerInfo, LedgerInfoWithSignatures, Transaction};
use state_sync::request_manager::RequestManager;
use state_sync::syncing_state::{ExecutedTrees, SyncingState};

fn epoch_state(epoch: u64, validators: Vec<u64>, quorum: usize) -> EpochState {
    EpochState { epoch, validators, quorum }
}

fn signed_li(
    version: u64,
    epoch: u64,
    signatures: Vec<u64>,
    next_epoch_state: Option<EpochState>,
) -> LedgerInfoWithSignatures {
    LedgerInfoWithSignatures {
        ledger_info: LedgerInfo { version, epoch, next_epoch_state },
        signatures,
    }
}

fn txns(n: u64) -> Vec<Transaction> {
    let mut v = Vec::new();
    let mut i: u64 = 0;
    while i < n {
        v.push(Transaction { payload: i });
        i += 1;
    }
    v
}

/// A node whose storage is committed and synced at `version` in epoch 1
/// (validators 10, 20, 30, quorum 2), with peers 1 and 2 connected.
fn coordinator_at(version: u64, waypoint: u64) -> StateSyncCoordinator {
    let li = signed_li(version, 1, vec![10, 20], None);
    let state = SyncingState::new(
        li,
        ExecutedTrees::new(Some(version)),
        epoch_state(1, vec![10, 20, 30], 2),
    );
    let config = SyncConfig { chunk_limit: 50, request_timeout: 10, stall_threshold: 100 };
    let mut c = StateSyncCoordinator::new(state, RequestManager::new(40), config, waypoint);
    c.process_new_peer(1);
    c.process_new_peer(2);
    c
}

fn chunk(first_version: u64, n: u64, target_li: LedgerInfoWithSignatures) -> ChunkResponse {
    ChunkResponse { first_version, txns: txns(n), target_li }
}

#[test]
fn sync_in_three_chunks_of_fifty() {
    // Node at version 100, target at 250, chunk limit 50: exactly three
    // requests go out, each only after the previous chunk applied.
    let mut c = coordinator_at(100, 0);
    let target = signed_li(250, 1, vec![10, 20], None);

    let r = c.process_sync_request(target.clone(), 0).unwrap();
    let first = match r {
        SyncStartOutcome::InProgress(Some(sr)) => sr,
        _ => panic!("expected an outgoing request"),
    };
    assert_eq!(first.request.known_version, 100);
    assert_eq!(first.request.known_epoch, 1);
    assert_eq!(first.request.target, TargetSelector::Version(250));
    assert_eq!(first.request.limit, 50);

    let r = c.process_chunk_response(first.peer, chunk(101, 50, target.clone()), 1).unwrap();
    let second = match r {
        ChunkOutcome::Applied { target_reached: false, next_request: Some(sr) } => sr,
        _ => panic!("expected a follow-up request"),
    };
    assert_eq!(second.request.known_version, 150);
    assert_eq!(c.sync_state().synced_version(), 150);
    assert_eq!(c.sync_state().committed_version(), 100);

    let r = c.process_chunk_response(second.peer, chunk(151, 50, target.clone()), 2).unwrap();
    let third = match r {
        ChunkOutcome::Applied { target_reached: false, next_request: Some(sr) } => sr,
        _ => panic!("expected a follow-up request"),
    };
    assert_eq!(third.request.known_version, 200);

    let r = c.process_chunk_response(third.peer, chunk(201, 50, target.clone()), 3).unwrap();
    assert!(matches!(r, ChunkOutcome::Applied { target_reached: true, next_request: None }));
    assert_eq!(c.sync_state().synced_version(), 250);
    assert_eq!(c.sync_state().committed_version(), 250);
    assert_eq!(c.pending_target_version(), None);
}

#[test]
fn sync_to_already_committed_target_completes_immediately() {
    let mut c = coordinator_at(100, 0);
    // Even an unverifiable certificate is fine below the committed version:
    // storage is already past it.
    let target = signed_li(80, 1, vec![], None);
    let r = c.process_sync_request(target, 0).unwrap();
    assert!(matches!(r, SyncStartOutcome::CompletedImmediately));
    assert_eq!(c.sync_state().committed_version(), 100);
}

#[test]
fn sync_to_unverifiable_target_is_rejected_and_changes_nothing() {
    let mut c = coordinator_at(100, 0);
    let target = signed_li(200, 1, vec![10], None);
    assert_eq!(c.process_sync_request(target, 0).unwrap_err(), SyncError::VerificationError);
    assert_eq!(c.sync_state().committed_version(), 100);
    assert_eq!(c.pending_target_version(), None);
}

#[test]
fn second_sync_request_while_one_is_in_flight_is_refused() {
    let mut c = coordinator_at(100, 0);
    let target = signed_li(250, 1, vec![10, 20], None);
    c.process_sync_request(target, 0).unwrap();
    let other = signed_li(300, 1, vec![10, 20], None);
    assert_eq!(c.process_sync_request(other, 1).unwrap_err(), SyncError::ProtocolError);
    assert_eq!(c.pending_target_version(), Some(250));
}

#[test]
fn verified_target_within_materialized_state_is_committed_on_the_spot() {
    let li = signed_li(100, 1, vec![10, 20], None);
    let state = SyncingState::new(
        li,
        ExecutedTrees::new(Some(120)),
        epoch_state(1, vec![10, 20, 30], 2),
    );
    let config = SyncConfig { chunk_limit: 50, request_timeout: 10, stall_threshold: 100 };
    let mut c = StateSyncCoordinator::new(state, RequestManager::new(40), config, 0);
    let target = signed_li(110, 1, vec![10, 30], None);
    let r = c.process_sync_request(target, 0).unwrap();
    assert!(matches!(r, SyncStartOutcome::CompletedImmediately));
    assert_eq!(c.sync_state().committed_version(), 110);
    assert_eq!(c.sync_state().synced_version(), 120);
}

#[test]
fn duplicate_chunk_is_idempotent_and_unpenalized() {
    let mut c = coordinator_at(100, 0);
    let head = signed_li(150, 1, vec![10, 20], None);
    let before = c.peer_score(1).unwrap();
    let r = c.process_chunk_response(1, chunk(101, 50, head.clone()), 1).unwrap();
    assert!(matches!(r, ChunkOutcome::Applied { .. }));
    assert_eq!(c.sync_state().synced_version(), 150);
    let rewarded = c.peer_score(1).unwrap();
    assert_eq!(rewarded, before + 1);

    // Redelivering the same chunk — or any chunk ending at or below the
    // synced version — changes nothing and costs the sender nothing.
    let r = c.process_chunk_response(1, chunk(101, 50, head.clone()), 2).unwrap();
    assert!(matches!(r, ChunkOutcome::Ignored));
    assert_eq!(c.sync_state().synced_version(), 150);
    assert_eq!(c.sync_state().committed_version(), 150);
    assert_eq!(c.peer_score(1), Some(rewarded));
    let r = c.process_chunk_response(2, chunk(120, 10, head), 3).unwrap();
    assert!(matches!(r, ChunkOutcome::Ignored));
}

#[test]
fn gapped_chunk_is_rejected_and_penalized() {
    let mut c = coordinator_at(100, 0);
    let head = signed_li(300, 1, vec![10, 20], None);
    let before = c.peer_score(1).unwrap();
    // Starts at 150 instead of 101: out of order.
    let r = c.process_chunk_response(1, chunk(150, 50, head.clone()), 1);
    assert_eq!(r.unwrap_err(), SyncError::ProtocolError);
    assert_eq!(c.sync_state().synced_version(), 100);
    assert_eq!(c.peer_score(1), Some(before - 4));
    // Empty chunks and chunks past their certificate are equally malformed.
    assert_eq!(c.process_chunk_response(1, chunk(101, 0, head.clone()), 2).unwrap_err(), SyncError::ProtocolError);
    let past_certificate = chunk(101, 50, signed_li(120, 1, vec![10, 20], None));
    assert_eq!(c.process_chunk_response(1, past_certificate, 3).unwrap_err(), SyncError::ProtocolError);
}

#[test]
fn epoch_boundary_rotates_trust_and_old_epoch_is_rejected() {
    let mut c = coordinator_at(100, 0);
    // A chunk whose certificate ends epoch 1 and announces epoch 2.
    let next = epoch_state(2, vec![40, 50, 60], 2);
    let boundary = signed_li(150, 1, vec![10, 20], Some(next));
    let r = c.process_chunk_response(1, chunk(101, 50, boundary), 1).unwrap();
    assert!(matches!(r, ChunkOutcome::Applied { .. }));
    assert_eq!(c.sync_state().committed_version(), 150);
    assert_eq!(c.sync_state().trusted_epoch(), 2);

    // Anything still certified by the old epoch no longer verifies.
    let stale = signed_li(200, 1, vec![10, 20], None);
    assert_eq!(c.process_chunk_response(1, chunk(151, 50, stale), 2).unwrap_err(), SyncError::VerificationError);

    // The next outgoing chunk request carries the new epoch.
    let target = signed_li(200, 2, vec![40, 50], None);
    let r = c.process_sync_request(target, 3).unwrap();
    let sr = match r {
        SyncStartOutcome::InProgress(Some(sr)) => sr,
        _ => panic!("expected an outgoing request"),
    };
    assert_eq!(sr.request.known_epoch, 2);
}

#[test]
fn commit_updates_versions_directly() {
    let mut c = coordinator_at(100, 0);
    let li = signed_li(105, 1, vec![10, 20], None);
    let r = c.process_commit(txns(5), li).unwrap();
    assert!(!r.sync_fulfilled);
    assert_eq!(c.sync_state().synced_version(), 105);
    assert_eq!(c.sync_state().committed_version(), 105);
}

#[test]
fn inconsistent_commit_is_refused() {
    let mut c = coordinator_at(100, 0);
    // Certificate version does not match the transactions delivered.
    let li = signed_li(110, 1, vec![10, 20], None);
    assert_eq!(c.process_commit(txns(5), li).unwrap_err(), SyncError::StorageError);
    assert_eq!(c.sync_state().synced_version(), 100);
    // Certificate from a foreign epoch.
    let li = signed_li(105, 9, vec![10, 20], None);
    assert_eq!(c.process_commit(txns(5), li).unwrap_err(), SyncError::StorageError);
}

#[test]
fn commit_fulfills_pending_sync_target() {
    let mut c = coordinator_at(100, 0);
    let target = signed_li(150, 1, vec![10, 20], None);
    c.process_sync_request(target, 0).unwrap();
    assert_eq!(c.pending_target_version(), Some(150));
    let li = signed_li(150, 1, vec![10, 20], None);
    let r = c.process_commit(txns(50), li).unwrap();
    assert!(r.sync_fulfilled);
    assert_eq!(c.pending_target_version(), None);
    assert_eq!(c.sync_state().committed_version(), 150);
}

#[test]
fn stalled_sync_fails_and_leaves_storage_untouched() {
    let mut c = coordinator_at(100, 0);
    let target = signed_li(250, 1, vec![10, 20], None);
    c.process_sync_request(target, 0).unwrap();
    // Short of the stall threshold nothing happens at quiet times.
    assert!(matches!(c.check_progress(5), ProgressOutcome::NoAction));
    // At the stall threshold the attempt is abandoned; the committed ledger
    // info is exactly what it was before the call.
    let r = c.check_progress(100);
    assert!(matches!(r, ProgressOutcome::SyncFailed(SyncError::ProgressTimeoutError)));
    assert_eq!(c.pending_target_version(), None);
    assert_eq!(c.sync_state().committed_version(), 100);
    assert_eq!(c.sync_state().synced_version(), 100);
}

#[test]
fn timed_out_peer_is_retried_then_replaced() {
    // Peer 1 well ahead of peer 2 in score: it is asked first, retried once
    // after a first timeout, and replaced by peer 2 on the third attempt,
    // its score decremented exactly twice.
    let li = signed_li(100, 1, vec![10, 20], None);
    let state = SyncingState::new(
        li,
        ExecutedTrees::new(Some(100)),
        epoch_state(1, vec![10, 20, 30], 2),
    );
    let config = SyncConfig { chunk_limit: 50, request_timeout: 10, stall_threshold: 1000 };
    let mut rm = RequestManager::new(40);
    rm.add_peer(1);
    rm.add_peer(2);
    for _ in 0..50 {
        rm.process_valid_response(1);
    }
    for _ in 0..45 {
        rm.process_valid_response(2);
    }
    assert_eq!(rm.peer_score(1), Some(100));
    assert_eq!(rm.peer_score(2), Some(95));
    let mut c = StateSyncCoordinator::new(state, rm, config, 0);

    let target = signed_li(250, 1, vec![10, 20], None);
    let r = c.process_sync_request(target, 0).unwrap();
    let first = match r {
        SyncStartOutcome::InProgress(Some(sr)) => sr,
        _ => panic!("expected an outgoing request"),
    };
    assert_eq!(first.peer, 1);

    let second = match c.check_progress(10) {
        ProgressOutcome::Resent(Some(sr)) => sr,
        _ => panic!("expected a resend"),
    };
    assert_eq!(second.peer, 1);
    assert_eq!(c.peer_score(1), Some(96));

    let third = match c.check_progress(20) {
        ProgressOutcome::Resent(Some(sr)) => sr,
        _ => panic!("expected a resend"),
    };
    assert_eq!(third.peer, 2);
    assert_eq!(c.peer_score(1), Some(92));
    assert_eq!(c.peer_score(2), Some(95));
}

#[test]
fn sync_without_eligible_peers_sends_nothing_and_eventually_fails() {
    let mut c = coordinator_at(100, 0);
    c.process_lost_peer(1);
    c.process_lost_peer(2);
    let target = signed_li(250, 1, vec![10, 20], None);
    let r = c.process_sync_request(target, 0).unwrap();
    assert!(matches!(r, SyncStartOutcome::InProgress(None)));
    let r = c.check_progress(100);
    assert!(matches!(r, ProgressOutcome::SyncFailed(SyncError::ProgressTimeoutError)));
    assert_eq!(c.sync_state().committed_version(), 100);
}

#[test]
fn passive_chunk_keeps_following_the_head() {
    let mut c = coordinator_at(100, 0);
    // A partial chunk toward a newer head: the coordinator keeps requesting.
    let head = signed_li(200, 1, vec![10, 20], None);
    let r = c.process_chunk_response(1, chunk(101, 50, head), 1).unwrap();
    let sr = match r {
        ChunkOutcome::Applied { target_reached: false, next_request: Some(sr) } => sr,
        _ => panic!("expected a follow-up request"),
    };
    assert_eq!(sr.request.known_version, 150);
    assert_eq!(sr.request.target, TargetSelector::HighestAvailable);
    // Synced version advanced, but without a certificate at 150 the
    // committed ledger info stays.
    assert_eq!(c.sync_state().synced_version(), 150);
    assert_eq!(c.sync_state().committed_version(), 100);
}

#[test]
fn node_below_waypoint_requests_toward_it() {
    let mut c = coordinator_at(100, 300);
    assert!(!c.is_initialized());
    let head = signed_li(200, 1, vec![10, 20], None);
    let r = c.process_chunk_response(1, chunk(101, 50, head), 1).unwrap();
    let sr = match r {
        ChunkOutcome::Applied { next_request: Some(sr), .. } => sr,
        _ => panic!("expected a follow-up request"),
    };
    assert_eq!(sr.request.target, TargetSelector::Waypoint(300));
}

#[test]
fn initialization_flips_once_waypoint_is_reached() {
    let mut c = coordinator_at(100, 150);
    assert!(!c.is_initialized());
    let head = signed_li(150, 1, vec![10, 20], None);
    c.process_chunk_response(1, chunk(101, 50, head), 1).unwrap();
    assert!(c.is_initialized());
}

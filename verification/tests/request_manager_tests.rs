use state_sync::request_manager::{
    RequestManager, MAX_SCORE, SCORE_BONUS, SCORE_PENALTY, STARTING_SCORE,
};

#[test]
fn add_and_remove_peers() {
    let mut rm = RequestManager::new(10);
    assert_eq!(rm.peer_count(), 0);
    rm.add_peer(1);
    rm.add_peer(2);
    rm.add_peer(1);
    assert_eq!(rm.peer_count(), 2);
    assert_eq!(rm.peer_score(1), Some(STARTING_SCORE));
    rm.remove_peer(1);
    assert_eq!(rm.peer_count(), 1);
    assert_eq!(rm.peer_score(1), None);
    rm.remove_peer(7);
    assert_eq!(rm.peer_count(), 1);
}

#[test]
fn pick_prefers_highest_score() {
    let mut rm = RequestManager::new(10);
    rm.add_peer(1);
    rm.add_peer(2);
    rm.process_valid_response(2);
    assert_eq!(rm.peer_score(2), Some(STARTING_SCORE + SCORE_BONUS));
    assert_eq!(rm.pick_peer(), Some(2));
}

#[test]
fn pick_breaks_ties_toward_least_recently_used() {
    let mut rm = RequestManager::new(10);
    rm.add_peer(1);
    rm.add_peer(2);
    rm.record_request(1, 5);
    // Equal scores; peer 2 was never asked, so it is older.
    assert_eq!(rm.pick_peer(), Some(2));
    rm.record_request(2, 9);
    assert_eq!(rm.pick_peer(), Some(1));
}

#[test]
fn pick_returns_none_without_eligible_peer() {
    let mut rm = RequestManager::new(10);
    assert_eq!(rm.pick_peer(), None);
    rm.add_peer(1);
    assert_eq!(rm.pick_peer(), Some(1));
}

#[test]
fn timeouts_strictly_decrease_score_and_exclude_below_floor() {
    let mut rm = RequestManager::new(40);
    rm.add_peer(1);
    let mut previous = STARTING_SCORE;
    // Consecutive timeouts strictly lower the score ...
    for _ in 0..3 {
        rm.process_timeout(1);
        let score = rm.peer_score(1).unwrap();
        assert!(score < previous);
        assert_eq!(score, previous - SCORE_PENALTY);
        previous = score;
    }
    // ... and once below the floor the peer is never selected.
    assert_eq!(rm.peer_score(1), Some(38));
    assert_eq!(rm.pick_peer(), None);
    rm.add_peer(2);
    for _ in 0..10 {
        assert_eq!(rm.pick_peer(), Some(2));
        rm.process_timeout(2);
        if rm.peer_score(2).unwrap() < 40 {
            break;
        }
    }
    assert_eq!(rm.pick_peer(), None);
}

#[test]
fn invalid_responses_are_penalized_like_timeouts() {
    let mut rm = RequestManager::new(10);
    rm.add_peer(1);
    rm.process_invalid_response(1);
    assert_eq!(rm.peer_score(1), Some(STARTING_SCORE - SCORE_PENALTY));
}

#[test]
fn score_is_floored_at_zero_and_capped_at_max() {
    let mut rm = RequestManager::new(10);
    rm.add_peer(1);
    for _ in 0..40 {
        rm.process_timeout(1);
    }
    assert_eq!(rm.peer_score(1), Some(0));
    for _ in 0..200 {
        rm.process_valid_response(1);
    }
    assert_eq!(rm.peer_score(1), Some(MAX_SCORE));
}

#[test]
fn recovered_peer_is_selectable_again() {
    let mut rm = RequestManager::new(40);
    rm.add_peer(1);
    for _ in 0..3 {
        rm.process_timeout(1);
    }
    assert_eq!(rm.pick_peer(), None);
    rm.process_valid_response(1);
    rm.process_valid_response(1);
    assert_eq!(rm.peer_score(1), Some(40));
    assert_eq!(rm.pick_peer(), Some(1));
}

//! Peer bookkeeping for outgoing chunk requests: responsiveness scores,
//! last-use timestamps, and the selection policy (best score first, ties
//! broken toward the least recently used peer).

use vstd::prelude::*;

verus! {

/// Score a newly admitted peer starts with.
pub const STARTING_SCORE: u64 = 50;

/// Cap on a peer's responsiveness score.
pub const MAX_SCORE: u64 = 100;

/// Added to a peer's score for each valid, timely chunk response.
pub const SCORE_BONUS: u64 = 1;

/// Subtracted from a peer's score for each timeout or invalid response.
pub const SCORE_PENALTY: u64 = 4;

/// A peer's score after one penalty: decremented, floored at zero.
pub open spec fn penalized(score: u64) -> u64 {
    if score >= SCORE_PENALTY {
        (score - SCORE_PENALTY) as u64
    } else {
        0
    }
}

/// A peer's score after one reward: incremented, capped at `MAX_SCORE`.
pub open spec fn rewarded(score: u64) -> u64 {
    if score + SCORE_BONUS <= MAX_SCORE {
        (score + SCORE_BONUS) as u64
    } else {
        MAX_SCORE
    }
}

/// One known peer: identity, responsiveness score, and when we last sent it
/// a request.
#[derive(Clone, Copy, Debug, PartialEq, Eq, Structural)]
pub struct PeerInfo {
    pub id: u64,
    pub score: u64,
    pub last_request_time: u64,
}

/// Tracks known peers and picks where the next chunk request goes.
pub struct RequestManager {
    peers: Vec<PeerInfo>,
    min_score: u64,
}

impl RequestManager {
    /// The peer table as a sequence, for contracts.
    pub closed spec fn spec_peers(self) -> Seq<PeerInfo> {
        self.peers@
    }

    /// The configured score floor below which a peer is excluded.
    pub closed spec fn spec_min_score(self) -> u64 {
        self.min_score
    }

    /// Identities are unique and every score respects the cap.
    pub open spec fn wf(self) -> bool {
        &&& forall|i: int, j: int|
            #![trigger self.spec_peers()[i].id, self.spec_peers()[j].id]
            0 <= i < j < self.spec_peers().len() ==> self.spec_peers()[i].id
                != self.spec_peers()[j].id
        &&& forall|i: int|
            0 <= i < self.spec_peers().len() ==> #[trigger] self.spec_peers()[i].score <= MAX_SCORE
    }

    pub open spec fn known_peer(self, id: u64) -> bool {
        exists|i: int| 0 <= i < self.spec_peers().len() && #[trigger] self.spec_peers()[i].id == id
    }

    /// The index of a known peer; unique when `wf()` holds.
    pub open spec fn index_of(self, id: u64) -> int {
        choose|i: int|
            0 <= i < self.spec_peers().len() && #[trigger] self.spec_peers()[i].id == id
    }

    pub open spec fn score_of(self, id: u64) -> u64 {
        self.spec_peers()[self.index_of(id)].score
    }

    pub open spec fn last_request_of(self, id: u64) -> u64 {
        self.spec_peers()[self.index_of(id)].last_request_time
    }

    /// `self` is `prev` with peer `id`'s score penalized once and nothing
    /// else changed (an unknown `id` changes nothing).
    pub open spec fn penalized_from(self, prev: RequestManager, id: u64) -> bool {
        &&& self.spec_min_score() == prev.spec_min_score()
        &&& self.spec_peers().len() == prev.spec_peers().len()
        &&& forall|j: int|
            0 <= j < prev.spec_peers().len() ==> {
                &&& (#[trigger] self.spec_peers()[j]).id == prev.spec_peers()[j].id
                &&& self.spec_peers()[j].last_request_time == prev.spec_peers()[j].last_request_time
            }
        &&& forall|j: int|
            0 <= j < prev.spec_peers().len() && prev.spec_peers()[j].id != id
                ==> #[trigger] self.spec_peers()[j] == prev.spec_peers()[j]
        &&& prev.known_peer(id) ==> self.spec_peers()[prev.index_of(id)].score == penalized(
            prev.spec_peers()[prev.index_of(id)].score,
        )
        &&& !prev.known_peer(id) ==> self.spec_peers() == prev.spec_peers()
    }

    /// `self` is `prev` with peer `id`'s score rewarded once and nothing
    /// else changed (an unknown `id` changes nothing).
    pub open spec fn rewarded_from(self, prev: RequestManager, id: u64) -> bool {
        &&& self.spec_min_score() == prev.spec_min_score()
        &&& self.spec_peers().len() == prev.spec_peers().len()
        &&& forall|j: int|
            0 <= j < prev.spec_peers().len() ==> {
                &&& (#[trigger] self.spec_peers()[j]).id == prev.spec_peers()[j].id
                &&& self.spec_peers()[j].last_request_time == prev.spec_peers()[j].last_request_time
            }
        &&& forall|j: int|
            0 <= j < prev.spec_peers().len() && prev.spec_peers()[j].id != id
                ==> #[trigger] self.spec_peers()[j] == prev.spec_peers()[j]
        &&& prev.known_peer(id) ==> self.spec_peers()[prev.index_of(id)].score == rewarded(
            prev.spec_peers()[prev.index_of(id)].score,
        )
        &&& !prev.known_peer(id) ==> self.spec_peers() == prev.spec_peers()
    }

    /// Like [`Self::rewarded_from`], but silent about request timestamps:
    /// what holds of the scores after a reward even if a request was handed
    /// out afterwards.
    pub open spec fn scores_rewarded_from(self, prev: RequestManager, id: u64) -> bool {
        &&& self.spec_min_score() == prev.spec_min_score()
        &&& self.spec_peers().len() == prev.spec_peers().len()
        &&& forall|j: int|
            0 <= j < prev.spec_peers().len() ==> (#[trigger] self.spec_peers()[j]).id
                == prev.spec_peers()[j].id
        &&& forall|j: int|
            0 <= j < prev.spec_peers().len() && prev.spec_peers()[j].id != id ==> (
            #[trigger] self.spec_peers()[j]).score == prev.spec_peers()[j].score
        &&& prev.known_peer(id) ==> self.spec_peers()[prev.index_of(id)].score == rewarded(
            prev.spec_peers()[prev.index_of(id)].score,
        )
    }

    /// Like [`Self::penalized_from`], but silent about request timestamps:
    /// what holds of the scores after a penalty even if a request was handed
    /// out afterwards.
    pub open spec fn scores_penalized_from(self, prev: RequestManager, id: u64) -> bool {
        &&& self.spec_min_score() == prev.spec_min_score()
        &&& self.spec_peers().len() == prev.spec_peers().len()
        &&& forall|j: int|
            0 <= j < prev.spec_peers().len() ==> (#[trigger] self.spec_peers()[j]).id
                == prev.spec_peers()[j].id
        &&& forall|j: int|
            0 <= j < prev.spec_peers().len() && prev.spec_peers()[j].id != id ==> (
            #[trigger] self.spec_peers()[j]).score == prev.spec_peers()[j].score
        &&& prev.known_peer(id) ==> self.spec_peers()[prev.index_of(id)].score == penalized(
            prev.spec_peers()[prev.index_of(id)].score,
        )
    }

    /// A peer may be selected only while its score meets the floor.
    pub open spec fn eligible(self, id: u64) -> bool {
        self.known_peer(id) && self.score_of(id) >= self.spec_min_score()
    }

    /// Under `wf()`, the id found at an index points back to that index.
    pub proof fn lemma_index_of(self, j: int)
        requires
            self.wf(),
            0 <= j < self.spec_peers().len(),
        ensures
            self.known_peer(self.spec_peers()[j].id),
            self.index_of(self.spec_peers()[j].id) == j,
    {
        let id = self.peers@[j].id;
        assert(0 <= j < self.peers@.len() && self.peers@[j].id == id);
        let i = self.index_of(id);
        assert(0 <= i < self.peers@.len() && self.peers@[i].id == id);
        if i != j {
            assert(self.peers@[i].id != self.peers@[j].id);
        }
    }

    pub fn new(min_score: u64) -> (r: Self)
        ensures
            r.wf(),
            r.spec_peers().len() == 0,
            r.spec_min_score() == min_score,
    {
        RequestManager { peers: Vec::new(), min_score }
    }

    pub fn peer_count(&self) -> (r: usize)
        ensures
            r == self.spec_peers().len(),
    {
        self.peers.len()
    }

    /// The current responsiveness score of peer `id`, if known.
    pub fn peer_score(&self, id: u64) -> (r: Option<u64>)
        requires
            self.wf(),
        ensures
            match r {
                Some(s) => self.known_peer(id) && s == self.score_of(id),
                None => !self.known_peer(id),
            },
    {
        match self.find(id) {
            Some(i) => {
                proof {
                    self.lemma_index_of(i as int);
                }
                Some(self.peers[i].score)
            },
            None => None,
        }
    }

    /// Index of the peer with identity `id`, if known.
    fn find(&self, id: u64) -> (r: Option<usize>)
        ensures
            match r {
                Some(i) => i < self.spec_peers().len() && self.spec_peers()[i as int].id == id,
                None => !self.known_peer(id),
            },
    {
        let mut k: usize = 0;
        while k < self.peers.len()
            invariant
                0 <= k <= self.peers@.len(),
                forall|i: int| 0 <= i < k ==> #[trigger] self.peers@[i].id != id,
            decreases self.peers@.len() - k,
        {
            if self.peers[k].id == id {
                return Some(k);
            }
            k += 1;
        }
        None
    }

    /// Admits a newly discovered peer with the starting score; a peer that
    /// is already known is left exactly as it was.
    pub fn add_peer(&mut self, id: u64)
        requires
            old(self).wf(),
        ensures
            final(self).wf(),
            final(self).spec_min_score() == old(self).spec_min_score(),
            old(self).known_peer(id) ==> final(self).spec_peers() == old(self).spec_peers(),
            !old(self).known_peer(id) ==> final(self).spec_peers() == old(self).spec_peers().push(
                PeerInfo { id, score: STARTING_SCORE, last_request_time: 0 },
            ),
            final(self).known_peer(id),
    {
        match self.find(id) {
            Some(i) => {
                proof {
                    assert(self.spec_peers()[i as int].id == id);
                }
            },
            None => {
                self.peers.push(PeerInfo { id, score: STARTING_SCORE, last_request_time: 0 });
                proof {
                    let n = self.peers@.len() - 1;
                    assert(self.peers@[n].id == id);
                    assert forall|a: int, b: int|
                        #![trigger self.spec_peers()[a].id, self.spec_peers()[b].id]
                        0 <= a < b < self.spec_peers().len() implies self.spec_peers()[a].id
                        != self.spec_peers()[b].id by {
                        if b < n {
                            assert(self.spec_peers()[a] == old(self).spec_peers()[a]);
                            assert(self.spec_peers()[b] == old(self).spec_peers()[b]);
                        } else {
                            assert(self.spec_peers()[a] == old(self).spec_peers()[a]);
                            assert(old(self).spec_peers()[a].id != id);
                        }
                    }
                    assert forall|i: int|
                        0 <= i < self.spec_peers().len() implies #[trigger] self.spec_peers()[i].score
                        <= MAX_SCORE by {
                        if i < n {
                            assert(self.spec_peers()[i] == old(self).spec_peers()[i]);
                        }
                    }
                }
            },
        }
    }

    /// Forgets a peer (disconnect or sustained unresponsiveness); unknown
    /// identities are ignored.
    pub fn remove_peer(&mut self, id: u64)
        requires
            old(self).wf(),
        ensures
            final(self).wf(),
            final(self).spec_min_score() == old(self).spec_min_score(),
            !old(self).known_peer(id) ==> final(self).spec_peers() == old(self).spec_peers(),
            old(self).known_peer(id) ==> final(self).spec_peers() == old(self).spec_peers().remove(
                old(self).index_of(id),
            ),
            !final(self).known_peer(id),
    {
        match self.find(id) {
            Some(i) => {
                proof {
                    old(self).lemma_index_of(i as int);
                }
                self.peers.remove(i);
                proof {
                    assert forall|a: int, b: int|
                        #![trigger self.peers@[a].id, self.peers@[b].id]
                        0 <= a < b < self.peers@.len() implies self.peers@[a].id
                        != self.peers@[b].id by {
                        let a0 = if a < i { a } else { a + 1 };
                        let b0 = if b < i { b } else { b + 1 };
                        assert(self.peers@[a] == old(self).spec_peers()[a0]);
                        assert(self.peers@[b] == old(self).spec_peers()[b0]);
                    }
                    if self.known_peer(id) {
                        let j = self.index_of(id);
                        assert(0 <= j < self.peers@.len() && self.peers@[j].id == id);
                        let j0 = if j < i { j } else { j + 1 };
                        assert(old(self).spec_peers()[j0].id == id);
                        old(self).lemma_index_of(j0);
                        old(self).lemma_index_of(i as int);
                    }
                }
            },
            None => {},
        }
    }

    /// Rewards or penalizes the score of peer `id`, leaving everything else
    /// in place.
    fn adjust_score(&mut self, id: u64, reward: bool)
        requires
            old(self).wf(),
        ensures
            final(self).wf(),
            final(self).spec_min_score() == old(self).spec_min_score(),
            final(self).spec_peers().len() == old(self).spec_peers().len(),
            forall|j: int|
                0 <= j < old(self).spec_peers().len() ==> {
                    &&& (#[trigger] final(self).spec_peers()[j]).id == old(self).spec_peers()[j].id
                    &&& final(self).spec_peers()[j].last_request_time == old(
                        self,
                    ).spec_peers()[j].last_request_time
                },
            forall|j: int|
                0 <= j < old(self).spec_peers().len() && old(self).spec_peers()[j].id != id
                    ==> #[trigger] final(self).spec_peers()[j] == old(self).spec_peers()[j],
            old(self).known_peer(id) ==> {
                let j = old(self).index_of(id);
                final(self).spec_peers()[j].score == if reward {
                    rewarded(old(self).spec_peers()[j].score)
                } else {
                    penalized(old(self).spec_peers()[j].score)
                }
            },
            !old(self).known_peer(id) ==> final(self).spec_peers() == old(self).spec_peers(),
    {
        match self.find(id) {
            Some(i) => {
                proof {
                    old(self).lemma_index_of(i as int);
                }
                let mut p = self.peers[i];
                if reward {
                    if p.score + SCORE_BONUS <= MAX_SCORE {
                        p.score = p.score + SCORE_BONUS;
                    } else {
                        p.score = MAX_SCORE;
                    }
                } else {
                    if p.score >= SCORE_PENALTY {
                        p.score = p.score - SCORE_PENALTY;
                    } else {
                        p.score = 0;
                    }
                }
                self.peers[i] = p;
            },
            None => {},
        }
    }

    /// Liveness feedback: a valid, timely chunk response raises the sending
    /// peer's score, capped at `MAX_SCORE`.
    pub fn process_valid_response(&mut self, id: u64)
        requires
            old(self).wf(),
        ensures
            final(self).wf(),
            final(self).rewarded_from(*old(self), id),
    {
        self.adjust_score(id, true);
    }

    /// Liveness feedback: a timeout on an outstanding request lowers the
    /// peer's score, floored at zero.
    pub fn process_timeout(&mut self, id: u64)
        requires
            old(self).wf(),
        ensures
            final(self).wf(),
            final(self).penalized_from(*old(self), id),
    {
        self.adjust_score(id, false);
    }

    /// Liveness feedback: an invalid or unverifiable response is penalized
    /// exactly like a timeout.
    pub fn process_invalid_response(&mut self, id: u64)
        requires
            old(self).wf(),
        ensures
            final(self).wf(),
            final(self).penalized_from(*old(self), id),
    {
        self.adjust_score(id, false);
    }

    /// Stamps the time a request was handed to peer `id`, for the
    /// least-recently-used tie break.
    pub fn record_request(&mut self, id: u64, now: u64)
        requires
            old(self).wf(),
        ensures
            final(self).wf(),
            final(self).spec_min_score() == old(self).spec_min_score(),
            final(self).spec_peers().len() == old(self).spec_peers().len(),
            forall|j: int|
                0 <= j < old(self).spec_peers().len() ==> {
                    &&& (#[trigger] final(self).spec_peers()[j]).id == old(self).spec_peers()[j].id
                    &&& final(self).spec_peers()[j].score == old(self).spec_peers()[j].score
                },
            forall|j: int|
                0 <= j < old(self).spec_peers().len() && old(self).spec_peers()[j].id != id
                    ==> #[trigger] final(self).spec_peers()[j] == old(self).spec_peers()[j],
    {
        match self.find(id) {
            Some(i) => {
                let mut p = self.peers[i];
                p.last_request_time = now;
                self.peers[i] = p;
            },
            None => {},
        }
    }

    /// Selects where the next chunk request goes: the eligible peer with the
    /// highest score, ties broken toward the oldest `last_request_time` (and
    /// then toward the lowest index). Returns `None` exactly when no peer
    /// meets the score floor; an excluded peer is never returned.
    pub fn pick_peer(&self) -> (r: Option<u64>)
        requires
            self.wf(),
        ensures
            match r {
                Some(id) => {
                    &&& self.eligible(id)
                    &&& forall|j: int|
                        0 <= j < self.spec_peers().len() && (#[trigger] self.spec_peers()[j]).score
                            >= self.spec_min_score() ==> {
                            ||| self.score_of(id) > self.spec_peers()[j].score
                            ||| (self.score_of(id) == self.spec_peers()[j].score
                                && self.last_request_of(id) <= self.spec_peers()[j].last_request_time)
                        }
                },
                None => forall|j: int|
                    0 <= j < self.spec_peers().len() ==> (#[trigger] self.spec_peers()[j]).score
                        < self.spec_min_score(),
            },
    {
        let mut best: Option<usize> = None;
        let mut k: usize = 0;
        while k < self.peers.len()
            invariant
                self.wf(),
                0 <= k <= self.peers@.len(),
                match best {
                    Some(b) => {
                        &&& b < k
                        &&& self.peers@[b as int].score >= self.min_score
                        &&& forall|j: int|
                            0 <= j < k && (#[trigger] self.peers@[j]).score >= self.min_score ==> {
                                ||| self.peers@[b as int].score > self.peers@[j].score
                                ||| (self.peers@[b as int].score == self.peers@[j].score
                                    && self.peers@[b as int].last_request_time
                                    <= self.peers@[j].last_request_time)
                            }
                    },
                    None => forall|j: int|
                        0 <= j < k ==> (#[trigger] self.peers@[j]).score < self.min_score,
                },
            decreases self.peers@.len() - k,
        {
            let cand = self.peers[k];
            if cand.score >= self.min_score {
                let take = match best {
                    Some(b) => {
                        let cur = self.peers[b];
                        cand.score > cur.score || (cand.score == cur.score
                            && cand.last_request_time < cur.last_request_time)
                    },
                    None => true,
                };
                if take {
                    best = Some(k);
                }
            }
            k += 1;
        }
        match best {
            Some(b) => {
                let id = self.peers[b].id;
                proof {
                    self.lemma_index_of(b as int);
                }
                Some(id)
            },
            None => None,
        }
    }
}

/// The score of a peer after `n` consecutive timeouts with no rewards in
/// between.
pub open spec fn penalized_n(score: u64, n: nat) -> u64
    decreases n,
{
    if n == 0 {
        score
    } else {
        penalized(penalized_n(score, (n - 1) as nat))
    }
}

/// Consecutive timeouts strictly lower a peer's score until it bottoms out
/// at zero: after any positive run of timeouts a peer that had any score
/// left is strictly worse off, and while the score lasts each timeout costs
/// exactly `SCORE_PENALTY`. Exclusion is the selection contract's side:
/// [`RequestManager::pick_peer`] never returns a peer whose score has fallen
/// below the floor.
pub proof fn lemma_consecutive_timeouts(score: u64, n: nat)
    ensures
        n >= 1 && score > 0 ==> penalized_n(score, n) < score,
        score >= n * SCORE_PENALTY ==> penalized_n(score, n) == score - n * SCORE_PENALTY,
    decreases n,
{
    if n >= 1 {
        lemma_consecutive_timeouts(score, (n - 1) as nat);
    }
}

} // verus!

//! The two wire message shapes of the chunk protocol: a request for a
//! contiguous range of committed transactions, and the proof-backed response.

use vstd::prelude::*;

use crate::ledger::{LedgerInfoWithSignatures, Transaction};

verus! {

/// How the requester names the point it wants to reach.
#[derive(Clone, Copy, Debug, PartialEq, Eq, Structural)]
pub enum TargetSelector {
    /// Sync up to a specific certified version.
    Version(u64),
    /// Give me whatever is newest; used to passively stay near the head.
    HighestAvailable,
    /// Bootstrap toward the configured waypoint version.
    Waypoint(u64),
}

/// A request for the transactions after `known_version`, at most `limit` of
/// them. Stateless and immutable once sent.
#[derive(Clone, Copy, Debug, PartialEq, Eq, Structural)]
pub struct ChunkRequest {
    /// Highest version the requester already holds.
    pub known_version: u64,
    /// Epoch the requester currently trusts.
    pub known_epoch: u64,
    /// Where the requester is heading.
    pub target: TargetSelector,
    /// Upper bound on the number of transactions in the response.
    pub limit: u64,
}

/// An ordered run of transactions starting at `first_version`, tied by proof
/// to `target_li`. The response is only usable if `target_li` verifies under
/// the epoch state the *receiver* trusts — never under data the response
/// itself carries — and the run does not extend past the certified version.
#[derive(Clone, Debug)]
pub struct ChunkResponse {
    /// Version of the first transaction in `txns`.
    pub first_version: u64,
    /// The transactions of the chunk, contiguous from `first_version`.
    pub txns: Vec<Transaction>,
    /// The certificate the proof ties the transactions to.
    pub target_li: LedgerInfoWithSignatures,
}

impl ChunkResponse {
    /// Version of the last transaction in the chunk, as an unbounded
    /// integer so that a malformed chunk cannot wrap around.
    pub open spec fn spec_last_version(self) -> int {
        self.first_version + self.txns@.len() - 1
    }

}

/// A gap-free chain of chunk responses on top of `synced`: each chunk is
/// nonempty and starts exactly one past what the previous one reached —
/// the shape the coordinator enforces on every chunk it applies.
pub open spec fn gapless_chain(synced: int, chain: Seq<ChunkResponse>) -> bool
    decreases chain.len(),
{
    chain.len() == 0 || {
        &&& chain[0].txns@.len() >= 1
        &&& chain[0].first_version == synced + 1
        &&& gapless_chain(chain[0].spec_last_version(), chain.skip(1))
    }
}

/// The synced version after applying a chain of chunks in order, each
/// advancing it to its own last transaction.
pub open spec fn chain_end(synced: int, chain: Seq<ChunkResponse>) -> int
    decreases chain.len(),
{
    if chain.len() == 0 {
        synced
    } else {
        chain_end(chain[0].spec_last_version(), chain.skip(1))
    }
}

/// Applying any gap-free chain of chunk responses lands the synced version
/// exactly on the last chunk's final transaction — no version is skipped
/// and none is lost along the way.
pub proof fn lemma_gapless_chain_end(synced: int, chain: Seq<ChunkResponse>)
    requires
        gapless_chain(synced, chain),
        chain.len() > 0,
    ensures
        chain_end(synced, chain) == chain.last().spec_last_version(),
    decreases chain.len(),
{
    if chain.len() == 1 {
        assert(chain.skip(1).len() == 0);
        assert(chain_end(chain[0].spec_last_version(), chain.skip(1))
            == chain[0].spec_last_version());
        assert(chain.last() == chain[0]);
    } else {
        lemma_gapless_chain_end(chain[0].spec_last_version(), chain.skip(1));
        assert(chain.skip(1).last() == chain.last());
    }
}

/// Each chunk the coordinator applies extends the gap-free chain: a chunk
/// that starts exactly one past the chain's end — the shape
/// `process_chunk_response` demands before applying anything — keeps the
/// chain gap-free and moves its end to the chunk's last transaction.
pub proof fn lemma_gapless_chain_extends(
    synced: int,
    chain: Seq<ChunkResponse>,
    resp: ChunkResponse,
)
    requires
        gapless_chain(synced, chain),
        resp.txns@.len() >= 1,
        resp.first_version == chain_end(synced, chain) + 1,
    ensures
        gapless_chain(synced, chain.push(resp)),
        chain_end(synced, chain.push(resp)) == resp.spec_last_version(),
    decreases chain.len(),
{
    let pushed = chain.push(resp);
    if chain.len() == 0 {
        assert(chain_end(synced, chain) == synced);
        assert(pushed[0] == resp);
        assert(pushed.skip(1) =~= Seq::<ChunkResponse>::empty());
        assert(gapless_chain(resp.spec_last_version(), pushed.skip(1)));
        assert(chain_end(resp.spec_last_version(), pushed.skip(1)) == resp.spec_last_version());
    } else {
        assert(chain_end(synced, chain) == chain_end(chain[0].spec_last_version(), chain.skip(1)));
        lemma_gapless_chain_extends(chain[0].spec_last_version(), chain.skip(1), resp);
        assert(pushed[0] == chain[0]);
        assert(pushed.skip(1) =~= chain.skip(1).push(resp));
        assert(gapless_chain(chain[0].spec_last_version(), pushed.skip(1)));
        assert(chain_end(synced, pushed) == chain_end(chain[0].spec_last_version(), pushed.skip(1)));
    }
}

} // verus!

//! State synchronization core for a blockchain node: the chunk-request
//! protocol that lets a node catch its local ledger up to the network by
//! fetching contiguous, proof-backed ranges of committed transactions from
//! peers, validating them against the trusted validator set, and applying
//! them in order.
//!
//! The crate holds the protocol logic only: message types, the trusted-epoch
//! verifier, peer selection and retry bookkeeping, and the coordinator state
//! machine. Network transport, durable storage and the async event loop live
//! outside and drive these functions with plain values.

use vstd::prelude::*;

pub mod error;
pub mod chunk;
pub mod coordinator;
pub mod ledger;
pub mod request_manager;
pub mod syncing_state;

verus! {

} // verus!

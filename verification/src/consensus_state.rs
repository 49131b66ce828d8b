//! The consensus state of a Tendermint client: what the client keeps of one
//! block of the counterparty chain.

use vstd::prelude::*;

use crate::bytes::{bytes_clone, bytes_eq};
use crate::timestamp::Timestamp;

verus! {

/// The commitment kept for one height: the block's time, the root of its
/// application state, and the hash of the validators of the next block.
#[derive(Clone, Debug)]
pub struct ConsensusState {
    pub timestamp: Timestamp,
    pub root: Vec<u8>,
    pub next_validators_hash: Vec<u8>,
}

/// The mathematical value of a consensus state.
pub struct ConsensusStateView {
    pub timestamp: Timestamp,
    pub root: Seq<u8>,
    pub next_validators_hash: Seq<u8>,
}

impl View for ConsensusState {
    type V = ConsensusStateView;

    open spec fn view(&self) -> ConsensusStateView {
        ConsensusStateView {
            timestamp: self.timestamp,
            root: self.root@,
            next_validators_hash: self.next_validators_hash@,
        }
    }
}

impl ConsensusState {
    pub fn new(root: Vec<u8>, timestamp: Timestamp, next_validators_hash: Vec<u8>) -> (r:
        ConsensusState)
        ensures
            r@ == (ConsensusStateView {
                timestamp,
                root: root@,
                next_validators_hash: next_validators_hash@,
            }),
    {
        ConsensusState { timestamp, root, next_validators_hash }
    }

    pub fn timestamp(&self) -> (r: Timestamp)
        ensures
            r == self@.timestamp,
    {
        self.timestamp
    }

    /// Whether two consensus states hold the same value.
    pub fn same(&self, other: &ConsensusState) -> (r: bool)
        ensures
            r == (self@ == other@),
    {
        self.timestamp.nanos == other.timestamp.nanos && bytes_eq(&self.root, &other.root)
            && bytes_eq(&self.next_validators_hash, &other.next_validators_hash)
    }

    /// A copy with the same value.
    pub fn duplicate(&self) -> (r: ConsensusState)
        ensures
            r@ == self@,
    {
        ConsensusState {
            timestamp: self.timestamp,
            root: bytes_clone(&self.root),
            next_validators_hash: bytes_clone(&self.next_validators_hash),
        }
    }
}

} // verus!

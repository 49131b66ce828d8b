//! A mock client: a client whose headers carry a height and a time and no
//! signatures. It stands beside the Tendermint client wherever clients are
//! told apart, and serves to exercise the handlers.

use vstd::prelude::*;

use crate::height::Height;
use crate::identifier::ClientId;
use crate::timestamp::{Duration, Timestamp};

verus! {

/// A header of the mock chain.
#[derive(Clone, Copy, Debug, PartialEq, Eq, Structural, Hash)]
pub struct MockHeader {
    pub height: Height,
    pub timestamp: Timestamp,
}

impl MockHeader {
    pub fn new(height: Height, timestamp: Timestamp) -> (r: MockHeader)
        ensures
            r == (MockHeader { height, timestamp }),
    {
        MockHeader { height, timestamp }
    }
}

/// The state of a mock client: the latest header it has seen.
#[derive(Clone, Copy, Debug, PartialEq, Eq, Structural, Hash)]
pub struct MockClientState {
    pub header: MockHeader,
    pub trusting_period: Duration,
    pub frozen_height: Option<Height>,
}

impl MockClientState {
    pub fn new(header: MockHeader, trusting_period: Duration) -> (r: MockClientState)
        ensures
            r == (MockClientState { header, trusting_period, frozen_height: None }),
    {
        MockClientState { header, trusting_period, frozen_height: None }
    }
}

/// The consensus state of a mock client: the header seen at a height.
#[derive(Clone, Copy, Debug, PartialEq, Eq, Structural, Hash)]
pub struct MockConsensusState {
    pub header: MockHeader,
}

impl MockConsensusState {
    pub fn new(header: MockHeader) -> (r: MockConsensusState)
        ensures
            r == (MockConsensusState { header }),
    {
        MockConsensusState { header }
    }
}

/// Two mock headers submitted as evidence of misbehaviour.
#[derive(Debug)]
pub struct MockMisbehaviour {
    pub client_id: ClientId,
    pub header1: MockHeader,
    pub header2: MockHeader,
}

/// Whether two mock headers are evidence of misbehaviour: at one height,
/// where their times differ; with the first above the second, where the
/// first is not later in time.
pub open spec fn mock_headers_conflict(h1: MockHeader, h2: MockHeader) -> bool {
    if h1.height == h2.height {
        h1.timestamp != h2.timestamp
    } else if h2.height.lt(h1.height) {
        h1.timestamp.nanos <= h2.timestamp.nanos
    } else {
        false
    }
}

/// Decides whether two mock headers are evidence of misbehaviour.
pub fn check_mock_headers(h1: &MockHeader, h2: &MockHeader) -> (r: bool)
    ensures
        r == mock_headers_conflict(*h1, *h2),
{
    if h1.height.revision_number == h2.height.revision_number && h1.height.revision_height
        == h2.height.revision_height {
        h1.timestamp.nanos != h2.timestamp.nanos
    } else if h2.height.is_lt(&h1.height) {
        h1.timestamp.nanos <= h2.timestamp.nanos
    } else {
        false
    }
}

} // verus!

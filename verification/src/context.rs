//! The interface between the client handlers and the host chain.
//!
//! A host keeps client states, consensus states by height, and for each
//! consensus state the host time and height at which it was stored. The
//! handlers read and write these through the two traits of this module.
//! What a host holds is described by a `ContextModel`; every method says
//! what it returns or changes in terms of that model. A host that does not
//! call itself reliable may fail with `HostFault` at any time: that is the
//! host's own failure and is passed on.

use vstd::prelude::*;

use crate::any::{AnyClientState, AnyClientStateView, AnyConsensusState, AnyConsensusStateView};
use crate::error::{ClientError, ContextError};
use crate::event::{IbcEvent, IbcEventView};
use crate::height::Height;
use crate::identifier::ClientId;
use crate::timestamp::Timestamp;

verus! {

/// The account that signed a message.
#[derive(Clone, Debug)]
pub struct Signer {
    pub address: String,
}

/// Where a client state is stored: `clients/{client_id}/clientState`.
#[derive(Debug)]
pub struct ClientStatePath {
    pub client_id: ClientId,
}

impl ClientStatePath {
    pub fn new(client_id: ClientId) -> (r: ClientStatePath)
        ensures
            r.client_id@ == client_id@,
    {
        ClientStatePath { client_id }
    }
}

/// Where a consensus state is stored:
/// `clients/{client_id}/consensusStates/{revision_number}-{revision_height}`.
#[derive(Debug)]
pub struct ClientConsensusStatePath {
    pub client_id: ClientId,
    pub revision_number: u64,
    pub revision_height: u64,
}

impl ClientConsensusStatePath {
    pub fn new(client_id: ClientId, revision_number: u64, revision_height: u64) -> (r:
        ClientConsensusStatePath)
        ensures
            r.client_id@ == client_id@,
            r.revision_number == revision_number,
            r.revision_height == revision_height,
    {
        ClientConsensusStatePath { client_id, revision_number, revision_height }
    }

    /// The height that the path names.
    pub open spec fn height(&self) -> Height {
        Height { revision_number: self.revision_number, revision_height: self.revision_height }
    }

    /// The key under which the model holds the consensus state.
    pub open spec fn key(&self) -> (Seq<char>, Height) {
        (self.client_id@, self.height())
    }
}

/// What a host holds, as far as the client handlers are concerned.
pub struct ContextModel {
    /// The client states, by client identifier.
    pub client_states: Map<Seq<char>, AnyClientStateView>,
    /// The consensus states, by client identifier and height.
    pub consensus_states: Map<(Seq<char>, Height), AnyConsensusStateView>,
    /// The host time and host height at which a consensus state was stored.
    pub update_meta: Map<(Seq<char>, Height), (Timestamp, Height)>,
    /// The time of the host's current block.
    pub host_timestamp: Timestamp,
    /// The height of the host's current block.
    pub host_height: Height,
    /// The events emitted so far.
    pub events: Seq<IbcEventView>,
    /// The number of clients created so far.
    pub client_counter: u64,
    /// The addresses of the signers whose messages the host accepts.
    pub accepted_signers: Set<Seq<char>>,
    /// Whether the host never fails of its own.
    pub reliable: bool,
}

impl ContextModel {
    /// Whether an error is a failure of the host's own, which only a host
    /// that is not reliable shows.
    pub open spec fn fails(self, e: ContextError) -> bool {
        e == ContextError::HostFault && !self.reliable
    }

    /// Whether `after` holds the events of this model and at most the event
    /// that opens the events of the client module behind them.
    pub open spec fn opened_at_most(self, after: ContextModel) -> bool {
        after.events == self.events || after.events == self.events.push(
            IbcEventView::ClientMessage,
        )
    }

    /// Whether a consensus state of the client is stored at the height.
    pub open spec fn has_state(self, client_id: Seq<char>, height: Height) -> bool {
        self.consensus_states.contains_key((client_id, height))
    }

    /// Whether `found` is the lowest height above `height` at which the
    /// client has a consensus state.
    pub open spec fn is_next_height(self, client_id: Seq<char>, height: Height, found: Height)
        -> bool {
        &&& self.has_state(client_id, found)
        &&& height.lt(found)
        &&& forall|other: Height| #[trigger]
            self.has_state(client_id, other) && height.lt(other) ==> found.le(other)
    }

    /// Whether `found` is the highest height below `height` at which the
    /// client has a consensus state.
    pub open spec fn is_prev_height(self, client_id: Seq<char>, height: Height, found: Height)
        -> bool {
        &&& self.has_state(client_id, found)
        &&& found.lt(height)
        &&& forall|other: Height| #[trigger]
            self.has_state(client_id, other) && other.lt(height) ==> other.le(found)
    }

    /// The lowest height above `height` at which the client has a consensus
    /// state.
    pub open spec fn next_height(self, client_id: Seq<char>, height: Height) -> Option<Height> {
        if exists|found: Height| self.is_next_height(client_id, height, found) {
            Some(choose|found: Height| self.is_next_height(client_id, height, found))
        } else {
            None
        }
    }

    /// The highest height below `height` at which the client has a
    /// consensus state.
    pub open spec fn prev_height(self, client_id: Seq<char>, height: Height) -> Option<Height> {
        if exists|found: Height| self.is_prev_height(client_id, height, found) {
            Some(choose|found: Height| self.is_prev_height(client_id, height, found))
        } else {
            None
        }
    }

    /// The consensus state at the lowest height above `height`.
    pub open spec fn next_state(self, client_id: Seq<char>, height: Height) -> Option<
        AnyConsensusStateView,
    > {
        match self.next_height(client_id, height) {
            Some(found) => Some(self.consensus_states[(client_id, found)]),
            None => None,
        }
    }

    /// The consensus state at the highest height below `height`.
    pub open spec fn prev_state(self, client_id: Seq<char>, height: Height) -> Option<
        AnyConsensusStateView,
    > {
        match self.prev_height(client_id, height) {
            Some(found) => Some(self.consensus_states[(client_id, found)]),
            None => None,
        }
    }

    /// Whether `found` is the lowest height at which the client has a
    /// consensus state.
    pub open spec fn is_oldest_height(self, client_id: Seq<char>, found: Height) -> bool {
        &&& self.has_state(client_id, found)
        &&& forall|other: Height| #[trigger] self.has_state(client_id, other) ==> found.le(other)
    }

    /// The lowest height at which the client has a consensus state.
    pub open spec fn oldest_height(self, client_id: Seq<char>) -> Option<Height> {
        if exists|found: Height| self.is_oldest_height(client_id, found) {
            Some(choose|found: Height| self.is_oldest_height(client_id, found))
        } else {
            None
        }
    }
}

/// No two heights are both the next one above a height.
pub proof fn lemma_next_height_unique(
    m: ContextModel,
    client_id: Seq<char>,
    height: Height,
    a: Height,
    b: Height,
)
    requires
        m.is_next_height(client_id, height, a),
        m.is_next_height(client_id, height, b),
    ensures
        a == b,
{
    assert(m.has_state(client_id, a) && height.lt(a));
    assert(m.has_state(client_id, b) && height.lt(b));
}

/// No two heights are both the previous one below a height.
pub proof fn lemma_prev_height_unique(
    m: ContextModel,
    client_id: Seq<char>,
    height: Height,
    a: Height,
    b: Height,
)
    requires
        m.is_prev_height(client_id, height, a),
        m.is_prev_height(client_id, height, b),
    ensures
        a == b,
{
    assert(m.has_state(client_id, a) && a.lt(height));
    assert(m.has_state(client_id, b) && b.lt(height));
}

/// No two heights are both the oldest of a client.
pub proof fn lemma_oldest_height_unique(m: ContextModel, client_id: Seq<char>, a: Height, b: Height)
    requires
        m.is_oldest_height(client_id, a),
        m.is_oldest_height(client_id, b),
    ensures
        a == b,
{
    assert(m.has_state(client_id, a));
    assert(m.has_state(client_id, b));
}

/// What the handlers read from the host.
pub trait ValidationContext {
    /// What holds of the host between any two calls. A host that does not
    /// say otherwise is always valid.
    open spec fn valid(&self) -> bool {
        true
    }

    /// What the host holds. A host that does not say what it holds makes no
    /// promise that could be proved of it.
    open spec fn model(&self) -> ContextModel {
        arbitrary()
    }

    /// The time of the host's current block.
    fn host_timestamp(&self) -> (r: Result<Timestamp, ContextError>)
        requires
            self.valid(),
        ensures
            match r {
                Ok(t) => t == self.model().host_timestamp,
                Err(e) => self.model().fails(e),
            },
    ;

    /// The height of the host's current block.
    fn host_height(&self) -> (r: Result<Height, ContextError>)
        requires
            self.valid(),
        ensures
            match r {
                Ok(h) => h == self.model().host_height,
                Err(e) => self.model().fails(e),
            },
    ;

    /// The number of clients created so far.
    fn client_counter(&self) -> (r: Result<u64, ContextError>)
        requires
            self.valid(),
        ensures
            match r {
                Ok(n) => n == self.model().client_counter,
                Err(e) => self.model().fails(e),
            },
    ;

    /// Whether the host accepts the signer of a message.
    fn validate_message_signer(&self, signer: &Signer) -> (r: Result<(), ContextError>)
        requires
            self.valid(),
        ensures
            match r {
                Ok(()) => self.model().accepted_signers.contains(signer.address@),
                Err(e) => self.model().fails(e) || (e == ContextError::InvalidSigner
                    && !self.model().accepted_signers.contains(signer.address@)),
            },
    ;

    /// The state of a client.
    fn client_state(&self, client_id: &ClientId) -> (r: Result<AnyClientState, ContextError>)
        requires
            self.valid(),
        ensures
            match r {
                Ok(cs) => self.model().client_states.contains_key(client_id@)
                    && self.model().client_states[client_id@] == cs@,
                Err(e) => self.model().fails(e) || (e == ContextError::ClientError(
                    ClientError::ClientNotFound,
                ) && !self.model().client_states.contains_key(client_id@)),
            },
    ;

    /// The consensus state of a client at a height.
    fn consensus_state(&self, path: &ClientConsensusStatePath) -> (r: Result<
        AnyConsensusState,
        ContextError,
    >)
        requires
            self.valid(),
        ensures
            match r {
                Ok(cs) => self.model().consensus_states.contains_key(path.key())
                    && self.model().consensus_states[path.key()] == cs@,
                Err(e) => self.model().fails(e) || (e == ContextError::ClientError(
                    ClientError::ConsensusStateNotFound { height: path.height() },
                ) && !self.model().consensus_states.contains_key(path.key())),
            },
    ;

    /// The heights at which a client has consensus states.
    fn consensus_state_heights(&self, client_id: &ClientId) -> (r: Result<
        Vec<Height>,
        ContextError,
    >)
        requires
            self.valid(),
        ensures
            match r {
                Ok(heights) => forall|h: Height|
                    heights@.contains(h) <==> #[trigger] self.model().has_state(client_id@, h),
                Err(e) => self.model().fails(e) || (e == ContextError::ClientError(
                    ClientError::ClientNotFound,
                ) && !self.model().client_states.contains_key(client_id@)),
            },
    ;

    /// The consensus state of a client at the lowest height above `height`.
    fn next_consensus_state(&self, client_id: &ClientId, height: &Height) -> (r: Result<
        Option<AnyConsensusState>,
        ContextError,
    >)
        requires
            self.valid(),
        ensures
            match r {
                Ok(Some(cs)) => self.model().next_state(client_id@, *height) == Some(cs@),
                Ok(None) => self.model().next_state(client_id@, *height).is_none(),
                Err(e) => self.model().fails(e) || (e == ContextError::ClientError(
                    ClientError::ClientNotFound,
                ) && !self.model().client_states.contains_key(client_id@)),
            },
    ;

    /// The consensus state of a client at the highest height below
    /// `height`.
    fn prev_consensus_state(&self, client_id: &ClientId, height: &Height) -> (r: Result<
        Option<AnyConsensusState>,
        ContextError,
    >)
        requires
            self.valid(),
        ensures
            match r {
                Ok(Some(cs)) => self.model().prev_state(client_id@, *height) == Some(cs@),
                Ok(None) => self.model().prev_state(client_id@, *height).is_none(),
                Err(e) => self.model().fails(e) || (e == ContextError::ClientError(
                    ClientError::ClientNotFound,
                ) && !self.model().client_states.contains_key(client_id@)),
            },
    ;

    /// The host time and height at which the consensus state of a client at
    /// `height` was stored.
    fn client_update_meta(&self, client_id: &ClientId, height: Height) -> (r: Result<
        (Timestamp, Height),
        ContextError,
    >)
        requires
            self.valid(),
        ensures
            match r {
                Ok(meta) => self.model().update_meta.contains_key((client_id@, height))
                    && self.model().update_meta[(client_id@, height)] == meta,
                Err(e) => self.model().fails(e) || (e == ContextError::ClientError(
                    ClientError::ProcessedTimeNotFound { height },
                ) && !self.model().update_meta.contains_key((client_id@, height))),
            },
    ;
}

/// What the handlers write to the host. A write that fails says nothing of
/// what the host holds afterwards, but that it is valid.
pub trait ExecutionContext: ValidationContext {
    /// Stores the state of a client.
    fn store_client_state(&mut self, path: ClientStatePath, client_state: AnyClientState) -> (r:
        Result<(), ContextError>)
        requires
            old(self).valid(),
        ensures
            final(self).valid(),
            final(self).model().reliable == old(self).model().reliable,
            match r {
                Ok(()) => final(self).model() == (ContextModel {
                    client_states: old(self).model().client_states.insert(
                        path.client_id@,
                        client_state@,
                    ),
                    ..old(self).model()
                }),
                Err(e) => old(self).model().fails(e) && final(self).model() == old(self).model(),
            },
    ;

    /// Stores a consensus state of a client.
    fn store_consensus_state(
        &mut self,
        path: ClientConsensusStatePath,
        consensus_state: AnyConsensusState,
    ) -> (r: Result<(), ContextError>)
        requires
            old(self).valid(),
        ensures
            final(self).valid(),
            final(self).model().reliable == old(self).model().reliable,
            match r {
                Ok(()) => final(self).model() == (ContextModel {
                    consensus_states: old(self).model().consensus_states.insert(
                        path.key(),
                        consensus_state@,
                    ),
                    ..old(self).model()
                }),
                Err(e) => old(self).model().fails(e) && final(self).model() == old(self).model(),
            },
    ;

    /// Deletes a consensus state of a client.
    fn delete_consensus_state(&mut self, path: ClientConsensusStatePath) -> (r: Result<
        (),
        ContextError,
    >)
        requires
            old(self).valid(),
        ensures
            final(self).valid(),
            final(self).model().reliable == old(self).model().reliable,
            match r {
                Ok(()) => final(self).model() == (ContextModel {
                    consensus_states: old(self).model().consensus_states.remove(path.key()),
                    ..old(self).model()
                }),
                Err(e) => old(self).model().fails(e) && final(self).model() == old(self).model(),
            },
    ;

    /// Records the host time and height at which a consensus state was
    /// stored.
    fn store_update_meta(
        &mut self,
        client_id: &ClientId,
        height: Height,
        host_timestamp: Timestamp,
        host_height: Height,
    ) -> (r: Result<(), ContextError>)
        requires
            old(self).valid(),
        ensures
            final(self).valid(),
            final(self).model().reliable == old(self).model().reliable,
            match r {
                Ok(()) => final(self).model() == (ContextModel {
                    update_meta: old(self).model().update_meta.insert(
                        (client_id@, height),
                        (host_timestamp, host_height),
                    ),
                    ..old(self).model()
                }),
                Err(e) => old(self).model().fails(e) && final(self).model() == old(self).model(),
            },
    ;

    /// Deletes the record of when a consensus state was stored.
    fn delete_update_meta(&mut self, client_id: &ClientId, height: Height) -> (r: Result<
        (),
        ContextError,
    >)
        requires
            old(self).valid(),
        ensures
            final(self).valid(),
            final(self).model().reliable == old(self).model().reliable,
            match r {
                Ok(()) => final(self).model() == (ContextModel {
                    update_meta: old(self).model().update_meta.remove((client_id@, height)),
                    ..old(self).model()
                }),
                Err(e) => old(self).model().fails(e) && final(self).model() == old(self).model(),
            },
    ;

    /// Counts one more client as created. A host that has counted as far
    /// as it can fails.
    fn increase_client_counter(&mut self) -> (r: Result<(), ContextError>)
        requires
            old(self).valid(),
        ensures
            final(self).valid(),
            final(self).model().reliable == old(self).model().reliable,
            match r {
                Ok(()) => old(self).model().client_counter < u64::MAX && final(self).model() == (
                ContextModel {
                    client_counter: (old(self).model().client_counter + 1) as u64,
                    ..old(self).model()
                }),
                Err(e) => e == ContextError::HostFault && (!old(self).model().reliable
                    || old(self).model().client_counter == u64::MAX) && final(self).model()
                    == old(self).model(),
            },
    ;

    /// Emits an event.
    fn emit_ibc_event(&mut self, event: IbcEvent) -> (r: Result<(), ContextError>)
        requires
            old(self).valid(),
        ensures
            final(self).valid(),
            final(self).model().reliable == old(self).model().reliable,
            match r {
                Ok(()) => final(self).model() == (ContextModel {
                    events: old(self).model().events.push(event@),
                    ..old(self).model()
                }),
                Err(e) => old(self).model().fails(e) && final(self).model() == old(self).model(),
            },
    ;
}

} // verus!

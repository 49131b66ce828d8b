//! Evidence of misbehaviour: two Tendermint headers that an honest chain
//! cannot both have produced.

use vstd::prelude::*;

use crate::bytes::bytes_eq;
use crate::client::tendermint_consensus_state;
use crate::client_state::{
    commit_outcome, misbehaviour_header_fault, ClientState, ClientStateView,
};
use crate::consensus_state::{ConsensusState, ConsensusStateView};
use crate::context::{ContextModel, ValidationContext};
use crate::error::{client_result, ClientError, ContextError};
use crate::header::{Header, HeaderView};
use crate::height::Height;
use crate::identifier::ClientId;
use crate::timestamp::Timestamp;

verus! {

/// Two headers submitted as evidence against the chain of a client.
#[derive(Debug)]
pub struct Misbehaviour {
    pub client_id: ClientId,
    pub header1: Header,
    pub header2: Header,
}

/// The mathematical value of a misbehaviour message.
pub struct MisbehaviourView {
    pub client_id: Seq<char>,
    pub header1: HeaderView,
    pub header2: HeaderView,
}

impl View for Misbehaviour {
    type V = MisbehaviourView;

    open spec fn view(&self) -> MisbehaviourView {
        MisbehaviourView {
            client_id: self.client_id@,
            header1: self.header1@,
            header2: self.header2@,
        }
    }
}

/// Whether two headers are evidence of misbehaviour.
///
/// At one height, two headers are evidence where they commit to different
/// blocks; the same block twice shows nothing. Where the first header is
/// above the second, they are evidence where the first is not later in time
/// than the second. In every other case they show nothing.
pub open spec fn headers_conflict(h1: HeaderView, h2: HeaderView) -> bool {
    if h1.height == h2.height {
        h1.block_hash != h2.block_hash
    } else if h2.height.lt(h1.height) {
        h1.time.nanos <= h2.time.nanos
    } else {
        false
    }
}

/// Whether a pair of headers is well-formed as a misbehaviour message: both
/// are of one chain, and the first is not below the second.
pub open spec fn misbehaviour_well_formed(m: MisbehaviourView) -> bool {
    m.header1.chain_id == m.header2.chain_id && m.header2.height.le(m.header1.height)
}

impl Misbehaviour {
    pub fn new(client_id: ClientId, header1: Header, header2: Header) -> (r: Misbehaviour)
        ensures
            r@ == (MisbehaviourView {
                client_id: client_id@,
                header1: header1@,
                header2: header2@,
            }),
    {
        Misbehaviour { client_id, header1, header2 }
    }

    pub fn header1(&self) -> (r: &Header)
        ensures
            *r == self.header1,
            r@ == self@.header1,
    {
        &self.header1
    }

    pub fn header2(&self) -> (r: &Header)
        ensures
            *r == self.header2,
            r@ == self@.header2,
    {
        &self.header2
    }

    /// Checks that the two headers are of one chain and that the first is
    /// not below the second.
    pub fn validate_basic(&self) -> (r: Result<(), ClientError>)
        ensures
            misbehaviour_well_formed(self@) ==> r.is_ok(),
            !misbehaviour_well_formed(self@) ==> r == Err::<(), ClientError>(
                ClientError::InvalidMisbehaviour,
            ),
    {
        if !self.header1.chain_id().same(self.header2.chain_id()) {
            return Err(ClientError::InvalidMisbehaviour);
        }
        if !self.header2.height().is_le(&self.header1.height()) {
            return Err(ClientError::InvalidMisbehaviour);
        }
        Ok(())
    }
}

/// The first fault in the consensus state that a header names as trusted:
/// none is stored at that height, or one of another client type.
pub open spec fn trusted_state_fault(m: ContextModel, client_id: Seq<char>, height: Height)
    -> Option<ClientError> {
    if !m.has_state(client_id, height) {
        Some(ClientError::ConsensusStateNotFound { height })
    } else if m.consensus_states[(client_id, height)] is Mock {
        Some(ClientError::ClientTypeMismatch)
    } else {
        None
    }
}

/// The Tendermint consensus state that the host holds for a client at a
/// height.
pub open spec fn trusted_state(m: ContextModel, client_id: Seq<char>, height: Height)
    -> ConsensusStateView {
    m.consensus_states[(client_id, height)]->Tendermint_0
}

/// The first fault that is found in a misbehaviour message before any
/// signature is looked at: an ill-formed pair, a trusted consensus state
/// that is missing or of another type, or a fault of the first header.
pub open spec fn evidence_fault(
    m: ContextModel,
    cs: ClientStateView,
    client_id: Seq<char>,
    e: MisbehaviourView,
) -> Option<ClientError> {
    if !misbehaviour_well_formed(e) {
        Some(ClientError::InvalidMisbehaviour)
    } else if trusted_state_fault(m, client_id, e.header1.trusted_height).is_some() {
        trusted_state_fault(m, client_id, e.header1.trusted_height)
    } else if trusted_state_fault(m, client_id, e.header2.trusted_height).is_some() {
        trusted_state_fault(m, client_id, e.header2.trusted_height)
    } else {
        misbehaviour_header_fault(
            cs,
            e.header1,
            trusted_state(m, client_id, e.header1.trusted_height),
        )
    }
}

/// The fault of the second header of a misbehaviour message, which is
/// looked for once the first header is verified.
pub open spec fn second_header_fault(
    m: ContextModel,
    cs: ClientStateView,
    client_id: Seq<char>,
    e: MisbehaviourView,
) -> Option<ClientError> {
    misbehaviour_header_fault(cs, e.header2, trusted_state(m, client_id, e.header2.trusted_height))
}

/// What the verification of a misbehaviour message comes to where
/// `evidence_fault` finds no fault: the outcome of the checks of the first
/// header's commit, if they fail; else the fault of the second header, if
/// it has one; else the outcome of the checks of the second header's
/// commit.
pub open spec fn evidence_commits(
    m: ContextModel,
    cs: ClientStateView,
    client_id: Seq<char>,
    e: Misbehaviour,
) -> Result<(), ContextError> {
    if commit_outcome(cs.trust_level, e.header1).is_err() {
        client_result(commit_outcome(cs.trust_level, e.header1))
    } else if second_header_fault(m, cs, client_id, e@).is_some() {
        Err(ContextError::ClientError(second_header_fault(m, cs, client_id, e@).unwrap()))
    } else {
        client_result(commit_outcome(cs.trust_level, e.header2))
    }
}

impl ClientState {
    /// Verifies the two headers of a misbehaviour message, each against the
    /// consensus state that the host holds at its trusted height.
    ///
    /// Unless the host fails, the message is refused with the first fault
    /// that `evidence_fault` finds, and where there is none the result is
    /// `evidence_commits`: both headers must pass the checks of their
    /// commits.
    pub fn verify_misbehaviour<Ctx: ValidationContext>(
        &self,
        ctx: &Ctx,
        client_id: &ClientId,
        misbehaviour: &Misbehaviour,
    ) -> (r: Result<(), ContextError>)
        requires
            ctx.valid(),
        ensures
            evidence_fault(ctx.model(), self@, client_id@, misbehaviour@) matches Some(e) ==> r
                == Err::<(), ContextError>(ContextError::ClientError(e)) || (r matches Err(f)
                && ctx.model().fails(f)),
            evidence_fault(ctx.model(), self@, client_id@, misbehaviour@).is_none() ==> (
            r matches Err(f) && ctx.model().fails(f)) || r == evidence_commits(
                ctx.model(),
                self@,
                client_id@,
                *misbehaviour,
            ),
    {
        match misbehaviour.validate_basic() {
            Ok(()) => {},
            Err(e) => {
                return Err(ContextError::ClientError(e));
            },
        }
        let header_1 = misbehaviour.header1();
        let trusted_consensus_state_1 = tendermint_consensus_state(
            ctx,
            client_id,
            header_1.trusted_height(),
        )?;
        let header_2 = misbehaviour.header2();
        let trusted_consensus_state_2 = tendermint_consensus_state(
            ctx,
            client_id,
            header_2.trusted_height(),
        )?;
        let current_timestamp = ctx.host_timestamp()?;
        match self.verify_misbehaviour_header(
            header_1,
            &trusted_consensus_state_1,
            current_timestamp,
        ) {
            Ok(()) => {},
            Err(e) => {
                return Err(ContextError::ClientError(e));
            },
        }
        match self.verify_misbehaviour_header(
            header_2,
            &trusted_consensus_state_2,
            current_timestamp,
        ) {
            Ok(()) => Ok(()),
            Err(e) => Err(ContextError::ClientError(e)),
        }
    }

    /// Verifies a header of a misbehaviour message against the consensus
    /// state at its trusted height.
    ///
    /// The header is refused with the first fault that
    /// `misbehaviour_header_fault` finds: the trusted next validator set is
    /// looked at first. Where there is none, the checks of the commit
    /// decide: the result is `commit_outcome`.
    ///
    /// Such a header is held to the same rules as a header of an update,
    /// but for the host's clock: it may lie in the future of the host, and
    /// the trusted state may be older than the trusting period. The host
    /// time is taken for the sake of a uniform interface and not consulted.
    pub fn verify_misbehaviour_header(
        &self,
        header: &Header,
        trusted_consensus_state: &ConsensusState,
        current_timestamp: Timestamp,
    ) -> (r: Result<(), ClientError>)
        ensures
            misbehaviour_header_fault(self@, header@, trusted_consensus_state@) matches Some(e)
                ==> r == Err::<(), ClientError>(e),
            misbehaviour_header_fault(self@, header@, trusted_consensus_state@).is_none()
                ==> r == commit_outcome(self@.trust_level, *header),
    {
        self.check_trusted_set(header, trusted_consensus_state)?;
        self.check_placement(header, trusted_consensus_state)?;
        self.check_own_hashes(header, trusted_consensus_state)?;
        self.check_commit(header)
    }

    /// Decides whether the two headers of a misbehaviour message are
    /// evidence of misbehaviour.
    pub fn check_for_misbehaviour_misbehavior(&self, misbehaviour: &Misbehaviour) -> (r: Result<
        bool,
        ClientError,
    >)
        ensures
            r == Ok::<bool, ClientError>(
                headers_conflict(misbehaviour@.header1, misbehaviour@.header2),
            ),
    {
        let header_1 = misbehaviour.header1();
        let header_2 = misbehaviour.header2();
        let height_1 = header_1.height();
        let height_2 = header_2.height();
        if height_1.revision_number == height_2.revision_number && height_1.revision_height
            == height_2.revision_height {
            Ok(!bytes_eq(header_1.block_hash(), header_2.block_hash()))
        } else if height_2.is_lt(&height_1) {
            Ok(header_1.time().nanos <= header_2.time().nanos)
        } else {
            Ok(false)
        }
    }
}

} // verus!

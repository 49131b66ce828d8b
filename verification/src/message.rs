//! The messages that the client handlers take.

use vstd::prelude::*;

use crate::any::{Any, AnyClientState, AnyConsensusState, AnyConsensusStateView, ClientType};
use crate::error::ClientError;
use crate::text::str_eq;
use crate::context::Signer;
use crate::header::{header_consensus_state, Header, HeaderView};
use crate::height::Height;
use crate::identifier::ClientId;
use crate::misbehaviour::{Misbehaviour, MisbehaviourView};
use crate::mock::{MockConsensusState, MockHeader, MockMisbehaviour};
use crate::timestamp::Timestamp;

verus! {

/// What a relayer submits to a client: a header to follow, or two headers
/// as evidence of misbehaviour.
#[derive(Debug)]
pub enum ClientMessage {
    TendermintHeader(Header),
    TendermintMisbehaviour(Misbehaviour),
    MockHeader(MockHeader),
    MockMisbehaviour(MockMisbehaviour),
}

/// The mathematical value of a client message.
pub enum ClientMessageView {
    TendermintHeader(HeaderView),
    TendermintMisbehaviour(MisbehaviourView),
    MockHeader(MockHeader),
    MockMisbehaviour { client_id: Seq<char>, header1: MockHeader, header2: MockHeader },
}

impl View for ClientMessage {
    type V = ClientMessageView;

    open spec fn view(&self) -> ClientMessageView {
        match self {
            ClientMessage::TendermintHeader(h) => ClientMessageView::TendermintHeader(h@),
            ClientMessage::TendermintMisbehaviour(m) => ClientMessageView::TendermintMisbehaviour(
                m@,
            ),
            ClientMessage::MockHeader(h) => ClientMessageView::MockHeader(*h),
            ClientMessage::MockMisbehaviour(m) => ClientMessageView::MockMisbehaviour {
                client_id: m.client_id@,
                header1: m.header1,
                header2: m.header2,
            },
        }
    }
}

/// A header as the handlers see it, whatever its client type: where it
/// stands, and the consensus state that it gives rise to.
pub struct HeaderFacts {
    pub height: Height,
    pub time: Timestamp,
    pub consensus_state: AnyConsensusStateView,
}

impl ClientMessageView {
    /// The client type that the message is meant for.
    pub open spec fn client_type(self) -> ClientType {
        match self {
            ClientMessageView::TendermintHeader(_) => ClientType::Tendermint,
            ClientMessageView::TendermintMisbehaviour(_) => ClientType::Tendermint,
            ClientMessageView::MockHeader(_) => ClientType::Mock,
            ClientMessageView::MockMisbehaviour { .. } => ClientType::Mock,
        }
    }

    /// Whether the message is a header to follow, and not evidence.
    pub open spec fn is_header(self) -> bool {
        self is TendermintHeader || self is MockHeader
    }

    /// The facts of the header that the message is.
    pub open spec fn header_facts(self) -> HeaderFacts
        recommends
            self.is_header(),
    {
        match self {
            ClientMessageView::TendermintHeader(h) => HeaderFacts {
                height: h.height,
                time: h.time,
                consensus_state: AnyConsensusStateView::Tendermint(header_consensus_state(h)),
            },
            ClientMessageView::MockHeader(h) => HeaderFacts {
                height: h.height,
                time: h.timestamp,
                consensus_state: AnyConsensusStateView::Mock(MockConsensusState { header: h }),
            },
            _ => arbitrary(),
        }
    }
}

/// What a client message is: a header to follow, or evidence.
#[derive(Clone, Copy, Debug, PartialEq, Eq, Structural, Hash)]
pub enum UpdateKind {
    UpdateClient,
    SubmitMisbehaviour,
}

pub const TENDERMINT_HEADER_TYPE_URL: &'static str = "/ibc.lightclients.tendermint.v1.Header";

pub const TENDERMINT_MISBEHAVIOUR_TYPE_URL: &'static str =
    "/ibc.lightclients.tendermint.v1.Misbehaviour";

pub const MOCK_HEADER_TYPE_URL: &'static str = "/ibc.mock.Header";

pub const MOCK_MISBEHAVIOUR_TYPE_URL: &'static str = "/ibc.mock.Misbehavior";

/// The client type and kind of the client message that an envelope of type
/// `type_url` holds.
pub open spec fn client_message_type_of(type_url: Seq<char>) -> Result<
    (ClientType, UpdateKind),
    ClientError,
> {
    if type_url == "/ibc.lightclients.tendermint.v1.Header"@ {
        Ok((ClientType::Tendermint, UpdateKind::UpdateClient))
    } else if type_url == "/ibc.lightclients.tendermint.v1.Misbehaviour"@ {
        Ok((ClientType::Tendermint, UpdateKind::SubmitMisbehaviour))
    } else if type_url == "/ibc.mock.Header"@ {
        Ok((ClientType::Mock, UpdateKind::UpdateClient))
    } else if type_url == "/ibc.mock.Misbehavior"@ {
        Ok((ClientType::Mock, UpdateKind::SubmitMisbehaviour))
    } else {
        Err(ClientError::UnknownStateType)
    }
}

impl ClientMessageView {
    /// Whether the message is a header or evidence.
    pub open spec fn update_kind(self) -> UpdateKind {
        if self.is_header() {
            UpdateKind::UpdateClient
        } else {
            UpdateKind::SubmitMisbehaviour
        }
    }
}

impl ClientMessage {
    /// Tells from the type of a wire envelope which client type's message
    /// it holds, and of which kind.
    pub fn type_of(raw: &Any) -> (r: Result<(ClientType, UpdateKind), ClientError>)
        ensures
            r == client_message_type_of(raw.type_url@),
    {
        let url = raw.type_url.as_str();
        if str_eq(url, TENDERMINT_HEADER_TYPE_URL) {
            Ok((ClientType::Tendermint, UpdateKind::UpdateClient))
        } else if str_eq(url, TENDERMINT_MISBEHAVIOUR_TYPE_URL) {
            Ok((ClientType::Tendermint, UpdateKind::SubmitMisbehaviour))
        } else if str_eq(url, MOCK_HEADER_TYPE_URL) {
            Ok((ClientType::Mock, UpdateKind::UpdateClient))
        } else if str_eq(url, MOCK_MISBEHAVIOUR_TYPE_URL) {
            Ok((ClientType::Mock, UpdateKind::SubmitMisbehaviour))
        } else {
            Err(ClientError::UnknownStateType)
        }
    }

    /// The type that the wire envelope of this message bears.
    pub fn type_url(&self) -> (r: &'static str)
        ensures
            client_message_type_of(r@) == Ok::<(ClientType, UpdateKind), ClientError>(
                (self@.client_type(), self@.update_kind()),
            ),
    {
        proof {
            reveal_strlit("/ibc.lightclients.tendermint.v1.Header");
            reveal_strlit("/ibc.lightclients.tendermint.v1.Misbehaviour");
            reveal_strlit("/ibc.mock.Header");
            reveal_strlit("/ibc.mock.Misbehavior");
            assert("/ibc.lightclients.tendermint.v1.Header"@.len() == 38);
            assert("/ibc.lightclients.tendermint.v1.Misbehaviour"@.len() == 44);
            assert("/ibc.mock.Header"@.len() == 16);
            assert("/ibc.mock.Misbehavior"@.len() == 21);
        }
        match self {
            ClientMessage::TendermintHeader(_) => TENDERMINT_HEADER_TYPE_URL,
            ClientMessage::TendermintMisbehaviour(_) => TENDERMINT_MISBEHAVIOUR_TYPE_URL,
            ClientMessage::MockHeader(_) => MOCK_HEADER_TYPE_URL,
            ClientMessage::MockMisbehaviour(_) => MOCK_MISBEHAVIOUR_TYPE_URL,
        }
    }

    pub fn update_kind(&self) -> (r: UpdateKind)
        ensures
            r == self@.update_kind(),
    {
        if self.is_header() {
            UpdateKind::UpdateClient
        } else {
            UpdateKind::SubmitMisbehaviour
        }
    }

    pub fn client_type(&self) -> (r: ClientType)
        ensures
            r == self@.client_type(),
    {
        match self {
            ClientMessage::TendermintHeader(_) => ClientType::Tendermint,
            ClientMessage::TendermintMisbehaviour(_) => ClientType::Tendermint,
            ClientMessage::MockHeader(_) => ClientType::Mock,
            ClientMessage::MockMisbehaviour(_) => ClientType::Mock,
        }
    }

    pub fn is_header(&self) -> (r: bool)
        ensures
            r == self@.is_header(),
    {
        match self {
            ClientMessage::TendermintHeader(_) => true,
            ClientMessage::MockHeader(_) => true,
            _ => false,
        }
    }

    /// The height and time of the header that the message is, and the
    /// consensus state that it gives rise to; `None` for evidence.
    pub fn header_parts(&self) -> (r: Option<(Height, Timestamp, AnyConsensusState)>)
        ensures
            match r {
                Some(parts) => self@.is_header() && parts.0 == self@.header_facts().height
                    && parts.1 == self@.header_facts().time && parts.2@
                    == self@.header_facts().consensus_state,
                None => !self@.is_header(),
            },
    {
        match self {
            ClientMessage::TendermintHeader(h) => Some(
                (h.height(), h.time(), AnyConsensusState::Tendermint(h.consensus_state())),
            ),
            ClientMessage::MockHeader(h) => Some(
                (
                    h.height,
                    h.timestamp,
                    AnyConsensusState::Mock(MockConsensusState { header: *h }),
                ),
            ),
            _ => None,
        }
    }
}

/// The message that creates a client from a client state and the consensus
/// state at its latest height.
#[derive(Debug)]
pub struct MsgCreateClient {
    pub client_state: AnyClientState,
    pub consensus_state: AnyConsensusState,
    pub signer: Signer,
}

/// The message that updates a client, or submits evidence against its
/// chain. `wire` is the client message as it came over the wire; the event
/// of a successful update repeats it.
#[derive(Debug)]
pub struct MsgUpdateClient {
    pub client_id: ClientId,
    pub client_message: ClientMessage,
    pub wire: Vec<u8>,
    pub signer: Signer,
}

/// The message that upgrades a client to a new revision of its chain.
/// Each of the two states comes with its wire form, over which the proof of
/// its commitment is stated, and with that proof.
#[derive(Debug)]
pub struct MsgUpgradeClient {
    pub client_id: ClientId,
    pub upgraded_client_state: AnyClientState,
    pub upgraded_consensus_state: AnyConsensusState,
    pub upgraded_client_state_wire: Vec<u8>,
    pub upgraded_consensus_state_wire: Vec<u8>,
    pub proof_upgrade_client: Vec<u8>,
    pub proof_upgrade_consensus_state: Vec<u8>,
    pub signer: Signer,
}

} // verus!

//! Client and consensus states of any client type, and how the types are
//! told apart on the wire.

use vstd::prelude::*;

use crate::client_state::{ClientState, ClientStateView};
use crate::consensus_state::{ConsensusState, ConsensusStateView};
use crate::error::ClientError;
use crate::height::Height;
use crate::identifier::{is_identifier_char, ClientId};
use crate::mock::{MockClientState, MockConsensusState, MockHeader};
use crate::text::{decimal_digits, is_digit, lemma_decimal_digits_u64, str_eq};
use crate::timestamp::{Duration, Timestamp};

verus! {

/// The kinds of client that the host knows.
#[derive(Clone, Copy, Debug, PartialEq, Eq, Structural, Hash)]
pub enum ClientType {
    Tendermint,
    Mock,
}

impl ClientType {
    /// The name of the client type, as it prefixes client identifiers.
    pub fn as_str(&self) -> (r: &'static str)
        ensures
            r@ == (match self {
                ClientType::Tendermint => "07-tendermint"@,
                ClientType::Mock => "9999-mock"@,
            }),
    {
        match self {
            ClientType::Tendermint => "07-tendermint",
            ClientType::Mock => "9999-mock",
        }
    }
}

impl ClientType {
    /// The identifier of the client of this type with the given number.
    pub fn client_id(&self, counter: u64) -> (r: ClientId)
        ensures
            r@ == client_id_of(*self, counter),
    {
        proof {
            reveal_strlit("07-tendermint");
            reveal_strlit("9999-mock");
            lemma_decimal_digits_u64(counter);
            let digits = decimal_digits(counter as nat);
            let prefix = match self {
                ClientType::Tendermint => "07-tendermint"@,
                ClientType::Mock => "9999-mock"@,
            };
            let id = prefix + seq!['-'] + digits;
            assert forall|i: int| 0 <= i < id.len() implies is_identifier_char(#[trigger] id[i])
                && id[i] != '/' by {
                if i > prefix.len() {
                    assert(is_digit(digits[i - prefix.len() - 1]));
                }
            }
            assert(!id.contains('/'));
        }
        match ClientId::new(self.as_str(), counter) {
            Ok(id) => id,
            Err(_) => vstd::pervasive::unreached(),
        }
    }
}

/// The identifier of the client of a type with the given number:
/// `07-tendermint-{counter}` or `9999-mock-{counter}`.
pub open spec fn client_id_of(client_type: ClientType, counter: u64) -> Seq<char> {
    (match client_type {
        ClientType::Tendermint => "07-tendermint"@,
        ClientType::Mock => "9999-mock"@,
    }) + seq!['-'] + decimal_digits(counter as nat)
}

/// A message in its wire envelope: the type it claims, and its bytes.
#[derive(Clone, Debug)]
pub struct Any {
    pub type_url: String,
    pub value: Vec<u8>,
}

pub open spec fn tendermint_client_state_url() -> Seq<char> {
    "/ibc.lightclients.tendermint.v1.ClientState"@
}

pub open spec fn tendermint_consensus_state_url() -> Seq<char> {
    "/ibc.lightclients.tendermint.v1.ConsensusState"@
}

pub open spec fn mock_client_state_url() -> Seq<char> {
    "/ibc.mock.ClientState"@
}

pub open spec fn mock_consensus_state_url() -> Seq<char> {
    "/ibc.mock.ConsensusState"@
}

pub const TENDERMINT_CLIENT_STATE_TYPE_URL: &'static str =
    "/ibc.lightclients.tendermint.v1.ClientState";

pub const TENDERMINT_CONSENSUS_STATE_TYPE_URL: &'static str =
    "/ibc.lightclients.tendermint.v1.ConsensusState";

pub const MOCK_CLIENT_STATE_TYPE_URL: &'static str = "/ibc.mock.ClientState";

pub const MOCK_CONSENSUS_STATE_TYPE_URL: &'static str = "/ibc.mock.ConsensusState";

/// The client type whose client state an envelope of type `type_url`
/// holds.
pub open spec fn client_state_type_of(type_url: Seq<char>) -> Result<ClientType, ClientError> {
    if type_url == tendermint_client_state_url() {
        Ok(ClientType::Tendermint)
    } else if type_url == mock_client_state_url() {
        Ok(ClientType::Mock)
    } else {
        Err(ClientError::UnknownStateType)
    }
}

/// The client type whose consensus state an envelope of type `type_url`
/// holds.
pub open spec fn consensus_state_type_of(type_url: Seq<char>) -> Result<ClientType, ClientError> {
    if type_url == tendermint_consensus_state_url() {
        Ok(ClientType::Tendermint)
    } else if type_url == mock_consensus_state_url() {
        Ok(ClientType::Mock)
    } else {
        Err(ClientError::UnknownStateType)
    }
}

/// A client state of any client type.
#[derive(Debug)]
pub enum AnyClientState {
    Tendermint(ClientState),
    Mock(MockClientState),
}

/// The mathematical value of a client state of any type.
pub enum AnyClientStateView {
    Tendermint(ClientStateView),
    Mock(MockClientState),
}

impl View for AnyClientState {
    type V = AnyClientStateView;

    open spec fn view(&self) -> AnyClientStateView {
        match self {
            AnyClientState::Tendermint(cs) => AnyClientStateView::Tendermint(cs@),
            AnyClientState::Mock(cs) => AnyClientStateView::Mock(*cs),
        }
    }
}

impl AnyClientStateView {
    pub open spec fn client_type(self) -> ClientType {
        match self {
            AnyClientStateView::Tendermint(_) => ClientType::Tendermint,
            AnyClientStateView::Mock(_) => ClientType::Mock,
        }
    }

    pub open spec fn latest_height(self) -> Height {
        match self {
            AnyClientStateView::Tendermint(cs) => cs.latest_height,
            AnyClientStateView::Mock(cs) => cs.header.height,
        }
    }

    pub open spec fn frozen_height(self) -> Option<Height> {
        match self {
            AnyClientStateView::Tendermint(cs) => cs.frozen_height,
            AnyClientStateView::Mock(cs) => cs.frozen_height,
        }
    }

    pub open spec fn is_frozen(self) -> bool {
        self.frozen_height().is_some()
    }

    pub open spec fn trusting_period(self) -> Duration {
        match self {
            AnyClientStateView::Tendermint(cs) => cs.trusting_period,
            AnyClientStateView::Mock(cs) => cs.trusting_period,
        }
    }

    /// Whether an expired client of this state may still be updated.
    pub open spec fn allow_update_after_expiry(self) -> bool {
        match self {
            AnyClientStateView::Tendermint(cs) => cs.allow_update_after_expiry,
            AnyClientStateView::Mock(_) => false,
        }
    }

    /// Whether a frozen client of this state may still be updated.
    pub open spec fn allow_update_after_misbehaviour(self) -> bool {
        match self {
            AnyClientStateView::Tendermint(cs) => cs.allow_update_after_misbehaviour,
            AnyClientStateView::Mock(_) => false,
        }
    }

    /// The state after a header at `height` with time `time` was accepted:
    /// the latest height is raised to `height` where that is above it.
    pub open spec fn after_update(self, height: Height, time: Timestamp) -> AnyClientStateView {
        match self {
            AnyClientStateView::Tendermint(cs) => AnyClientStateView::Tendermint(
                ClientStateView {
                    latest_height: if cs.latest_height.lt(height) {
                        height
                    } else {
                        cs.latest_height
                    },
                    ..cs
                },
            ),
            AnyClientStateView::Mock(cs) => AnyClientStateView::Mock(
                MockClientState {
                    header: if cs.header.height.lt(height) {
                        MockHeader { height, timestamp: time }
                    } else {
                        cs.header
                    },
                    ..cs
                },
            ),
        }
    }

    /// The state without a frozen height.
    pub open spec fn unfrozen(self) -> AnyClientStateView {
        match self {
            AnyClientStateView::Tendermint(cs) => AnyClientStateView::Tendermint(
                ClientStateView { frozen_height: None, ..cs },
            ),
            AnyClientStateView::Mock(cs) => AnyClientStateView::Mock(
                MockClientState { frozen_height: None, ..cs },
            ),
        }
    }

    /// The state frozen at `height`.
    pub open spec fn frozen_at(self, height: Height) -> AnyClientStateView {
        match self {
            AnyClientStateView::Tendermint(cs) => AnyClientStateView::Tendermint(
                ClientStateView { frozen_height: Some(height), ..cs },
            ),
            AnyClientStateView::Mock(cs) => AnyClientStateView::Mock(
                MockClientState { frozen_height: Some(height), ..cs },
            ),
        }
    }
}

impl AnyClientState {
    /// Tells from the type of a wire envelope which client type's state it
    /// holds.
    pub fn type_of(raw: &Any) -> (r: Result<ClientType, ClientError>)
        ensures
            r == client_state_type_of(raw.type_url@),
    {
        if str_eq(raw.type_url.as_str(), TENDERMINT_CLIENT_STATE_TYPE_URL) {
            Ok(ClientType::Tendermint)
        } else if str_eq(raw.type_url.as_str(), MOCK_CLIENT_STATE_TYPE_URL) {
            Ok(ClientType::Mock)
        } else {
            Err(ClientError::UnknownStateType)
        }
    }

    /// The type that the wire envelope of this state bears.
    pub fn type_url(&self) -> (r: &'static str)
        ensures
            client_state_type_of(r@) == Ok::<ClientType, ClientError>(self@.client_type()),
    {
        proof {
            lemma_urls_differ();
        }
        match self {
            AnyClientState::Tendermint(_) => TENDERMINT_CLIENT_STATE_TYPE_URL,
            AnyClientState::Mock(_) => MOCK_CLIENT_STATE_TYPE_URL,
        }
    }

    pub fn client_type(&self) -> (r: ClientType)
        ensures
            r == self@.client_type(),
    {
        match self {
            AnyClientState::Tendermint(_) => ClientType::Tendermint,
            AnyClientState::Mock(_) => ClientType::Mock,
        }
    }

    pub fn latest_height(&self) -> (r: Height)
        ensures
            r == self@.latest_height(),
    {
        match self {
            AnyClientState::Tendermint(cs) => cs.latest_height(),
            AnyClientState::Mock(cs) => cs.header.height,
        }
    }

    pub fn frozen_height(&self) -> (r: Option<Height>)
        ensures
            r == self@.frozen_height(),
    {
        match self {
            AnyClientState::Tendermint(cs) => cs.frozen_height(),
            AnyClientState::Mock(cs) => cs.frozen_height,
        }
    }

    pub fn is_frozen(&self) -> (r: bool)
        ensures
            r == self@.is_frozen(),
    {
        self.frozen_height().is_some()
    }

    pub fn trusting_period(&self) -> (r: Duration)
        ensures
            r == self@.trusting_period(),
    {
        match self {
            AnyClientState::Tendermint(cs) => cs.trusting_period(),
            AnyClientState::Mock(cs) => cs.trusting_period,
        }
    }

    pub fn allow_update_after_expiry(&self) -> (r: bool)
        ensures
            r == self@.allow_update_after_expiry(),
    {
        match self {
            AnyClientState::Tendermint(cs) => cs.allow_update_after_expiry(),
            AnyClientState::Mock(_) => false,
        }
    }

    pub fn allow_update_after_misbehaviour(&self) -> (r: bool)
        ensures
            r == self@.allow_update_after_misbehaviour(),
    {
        match self {
            AnyClientState::Tendermint(cs) => cs.allow_update_after_misbehaviour(),
            AnyClientState::Mock(_) => false,
        }
    }

    /// The state after a header at `height` with time `time` was accepted.
    pub fn after_update(&self, height: Height, time: Timestamp) -> (r: AnyClientState)
        requires
            height.revision_number == self@.latest_height().revision_number,
        ensures
            r@ == self@.after_update(height, time),
    {
        match self {
            AnyClientState::Tendermint(cs) => AnyClientState::Tendermint(cs.with_height(height)),
            AnyClientState::Mock(cs) => AnyClientState::Mock(
                MockClientState {
                    header: if cs.header.height.is_lt(&height) {
                        MockHeader { height, timestamp: time }
                    } else {
                        cs.header
                    },
                    trusting_period: cs.trusting_period,
                    frozen_height: cs.frozen_height,
                },
            ),
        }
    }

    /// The state without a frozen height.
    pub fn unfrozen(&self) -> (r: AnyClientState)
        ensures
            r@ == self@.unfrozen(),
    {
        match self {
            AnyClientState::Tendermint(cs) => AnyClientState::Tendermint(cs.unfrozen()),
            AnyClientState::Mock(cs) => AnyClientState::Mock(
                MockClientState {
                    header: cs.header,
                    trusting_period: cs.trusting_period,
                    frozen_height: None,
                },
            ),
        }
    }

    /// The state frozen at `height`.
    pub fn frozen_at(&self, height: Height) -> (r: AnyClientState)
        ensures
            r@ == self@.frozen_at(height),
    {
        match self {
            AnyClientState::Tendermint(cs) => AnyClientState::Tendermint(
                cs.with_frozen_height(height),
            ),
            AnyClientState::Mock(cs) => AnyClientState::Mock(
                MockClientState {
                    header: cs.header,
                    trusting_period: cs.trusting_period,
                    frozen_height: Some(height),
                },
            ),
        }
    }
}

impl Clone for AnyClientState {
    fn clone(&self) -> (r: AnyClientState)
        ensures
            r@ == self@,
    {
        match self {
            AnyClientState::Tendermint(cs) => AnyClientState::Tendermint(cs.clone()),
            AnyClientState::Mock(cs) => AnyClientState::Mock(*cs),
        }
    }
}

/// A consensus state of any client type.
#[derive(Clone, Debug)]
pub enum AnyConsensusState {
    Tendermint(ConsensusState),
    Mock(MockConsensusState),
}

/// The mathematical value of a consensus state of any type.
pub enum AnyConsensusStateView {
    Tendermint(ConsensusStateView),
    Mock(MockConsensusState),
}

impl View for AnyConsensusState {
    type V = AnyConsensusStateView;

    open spec fn view(&self) -> AnyConsensusStateView {
        match self {
            AnyConsensusState::Tendermint(cs) => AnyConsensusStateView::Tendermint(cs@),
            AnyConsensusState::Mock(cs) => AnyConsensusStateView::Mock(*cs),
        }
    }
}

impl AnyConsensusStateView {
    pub open spec fn client_type(self) -> ClientType {
        match self {
            AnyConsensusStateView::Tendermint(_) => ClientType::Tendermint,
            AnyConsensusStateView::Mock(_) => ClientType::Mock,
        }
    }

    /// The time of the block that the state commits to.
    pub open spec fn timestamp(self) -> Timestamp {
        match self {
            AnyConsensusStateView::Tendermint(cs) => cs.timestamp,
            AnyConsensusStateView::Mock(cs) => cs.header.timestamp,
        }
    }
}

impl AnyConsensusState {
    /// Tells from the type of a wire envelope which client type's consensus
    /// state it holds.
    pub fn type_of(raw: &Any) -> (r: Result<ClientType, ClientError>)
        ensures
            r == consensus_state_type_of(raw.type_url@),
    {
        if str_eq(raw.type_url.as_str(), TENDERMINT_CONSENSUS_STATE_TYPE_URL) {
            Ok(ClientType::Tendermint)
        } else if str_eq(raw.type_url.as_str(), MOCK_CONSENSUS_STATE_TYPE_URL) {
            Ok(ClientType::Mock)
        } else {
            Err(ClientError::UnknownStateType)
        }
    }

    /// The type that the wire envelope of this state bears.
    pub fn type_url(&self) -> (r: &'static str)
        ensures
            consensus_state_type_of(r@) == Ok::<ClientType, ClientError>(self@.client_type()),
    {
        proof {
            lemma_urls_differ();
        }
        match self {
            AnyConsensusState::Tendermint(_) => TENDERMINT_CONSENSUS_STATE_TYPE_URL,
            AnyConsensusState::Mock(_) => MOCK_CONSENSUS_STATE_TYPE_URL,
        }
    }

    pub fn client_type(&self) -> (r: ClientType)
        ensures
            r == self@.client_type(),
    {
        match self {
            AnyConsensusState::Tendermint(_) => ClientType::Tendermint,
            AnyConsensusState::Mock(_) => ClientType::Mock,
        }
    }

    pub fn timestamp(&self) -> (r: Timestamp)
        ensures
            r == self@.timestamp(),
    {
        match self {
            AnyConsensusState::Tendermint(cs) => cs.timestamp,
            AnyConsensusState::Mock(cs) => cs.header.timestamp,
        }
    }

    /// Whether two consensus states hold the same value.
    pub fn same(&self, other: &AnyConsensusState) -> (r: bool)
        ensures
            r == (self@ == other@),
    {
        match (self, other) {
            (AnyConsensusState::Tendermint(a), AnyConsensusState::Tendermint(b)) => a.same(b),
            (AnyConsensusState::Mock(a), AnyConsensusState::Mock(b)) => a.header.height.revision_number
                == b.header.height.revision_number && a.header.height.revision_height
                == b.header.height.revision_height && a.header.timestamp.nanos
                == b.header.timestamp.nanos,
            _ => false,
        }
    }

    /// A copy with the same value.
    pub fn duplicate(&self) -> (r: AnyConsensusState)
        ensures
            r@ == self@,
    {
        match self {
            AnyConsensusState::Tendermint(cs) => AnyConsensusState::Tendermint(cs.duplicate()),
            AnyConsensusState::Mock(cs) => AnyConsensusState::Mock(*cs),
        }
    }
}

/// The four type urls are four different strings.
proof fn lemma_urls_differ()
    ensures
        tendermint_client_state_url() != mock_client_state_url(),
        tendermint_consensus_state_url() != mock_consensus_state_url(),
{
    reveal_strlit("/ibc.lightclients.tendermint.v1.ClientState");
    reveal_strlit("/ibc.lightclients.tendermint.v1.ConsensusState");
    reveal_strlit("/ibc.mock.ClientState");
    reveal_strlit("/ibc.mock.ConsensusState");
    assert(tendermint_client_state_url().len() != mock_client_state_url().len());
    assert(tendermint_consensus_state_url().len() != mock_consensus_state_url().len());
}

} // verus!

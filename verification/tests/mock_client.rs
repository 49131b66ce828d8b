use ibc_light_client::any::{
    Any, AnyClientState, AnyConsensusState, ClientType, MOCK_CLIENT_STATE_TYPE_URL,
    MOCK_CONSENSUS_STATE_TYPE_URL, TENDERMINT_CLIENT_STATE_TYPE_URL,
    TENDERMINT_CONSENSUS_STATE_TYPE_URL,
};
use ibc_light_client::client::{
    check_for_misbehaviour, client_status, prune_oldest_consensus_state, update_state,
    update_state_on_misbehaviour, verify_client_message,
};
use ibc_light_client::client_state::{ClientState, TrustThreshold};
use ibc_light_client::context::{
    ClientConsensusStatePath, ClientStatePath, ExecutionContext, Signer, ValidationContext,
};
use ibc_light_client::dummies::{dummy_raw_counterparty_conn, CounterpartyConfig, MerklePrefix};
use ibc_light_client::error::{ClientError, ContextError, Status};
use ibc_light_client::event::IbcEvent;
use ibc_light_client::handler::update_client::{execute, validate};
use ibc_light_client::height::Height;
use ibc_light_client::identifier::{ChainId, ClientId};
use ibc_light_client::message::{
    ClientMessage, MsgUpdateClient, UpdateKind, MOCK_HEADER_TYPE_URL, MOCK_MISBEHAVIOUR_TYPE_URL,
    TENDERMINT_HEADER_TYPE_URL, TENDERMINT_MISBEHAVIOUR_TYPE_URL,
};
use ibc_light_client::path::{height_to_string, processed_height_path, processed_time_path};
use ibc_light_client::mock::{
    check_mock_headers, MockClientState, MockConsensusState, MockHeader, MockMisbehaviour,
};
use ibc_light_client::store::MockContext;
use ibc_light_client::timestamp::{Duration, Timestamp};

fn at(h: u64) -> Height {
    Height::new(0, h).unwrap()
}

fn time(n: u64) -> Timestamp {
    Timestamp::from_nanoseconds(n)
}

fn header(h: u64, t: u64) -> MockHeader {
    MockHeader::new(at(h), time(t))
}

fn id() -> ClientId {
    ClientId::from_str("9999-mock-0").unwrap()
}

fn host(h: u64, t: u64, now: u64) -> MockContext {
    let mut ctx = MockContext::new(at(1000), time(now));
    ctx.store_client_state(
        ClientStatePath::new(id()),
        AnyClientState::Mock(MockClientState::new(header(h, t), Duration::from_nanos(1000))),
    )
    .unwrap();
    ctx.store_consensus_state(
        ClientConsensusStatePath::new(id(), 0, h),
        AnyConsensusState::Mock(MockConsensusState::new(header(h, t))),
    )
    .unwrap();
    ctx.store_update_meta(&id(), at(h), time(now), at(1000)).unwrap();
    ctx
}

fn update(h: u64, t: u64) -> MsgUpdateClient {
    MsgUpdateClient {
        client_id: id(),
        client_message: ClientMessage::MockHeader(header(h, t)),
        wire: vec![9],
        signer: Signer { address: "relayer".to_string() },
    }
}

fn evidence(h1: MockHeader, h2: MockHeader) -> MsgUpdateClient {
    MsgUpdateClient {
        client_id: id(),
        client_message: ClientMessage::MockMisbehaviour(MockMisbehaviour {
            client_id: id(),
            header1: h1,
            header2: h2,
        }),
        wire: Vec::new(),
        signer: Signer { address: "relayer".to_string() },
    }
}

fn client(ctx: &MockContext) -> AnyClientState {
    ctx.client_state(&id()).unwrap()
}

fn client_error(e: ClientError) -> Result<(), ContextError> {
    Err(ContextError::ClientError(e))
}

#[test]
fn mock_update_stores_the_header() {
    let mut ctx = host(10, 100, 150);
    let msg = update(12, 120);
    assert_eq!(validate(&ctx, &msg), Ok(()));
    assert_eq!(execute(&mut ctx, &msg), Ok(()));

    assert_eq!(client(&ctx).latest_height(), at(12));
    let stored = ctx.consensus_state(&ClientConsensusStatePath::new(id(), 0, 12)).unwrap();
    assert!(stored.same(&AnyConsensusState::Mock(MockConsensusState::new(header(12, 120)))));
    assert_eq!(ctx.client_update_meta(&id(), at(12)), Ok((time(150), at(1000))));
    assert_eq!(ctx.event_count(), 2);
    match ctx.event(1) {
        IbcEvent::UpdateClient { client_id, client_type, consensus_height, consensus_heights, header } => {
            assert_eq!(client_id, &id());
            assert_eq!(*client_type, ClientType::Mock);
            assert_eq!(*consensus_height, at(12));
            assert_eq!(consensus_heights, &vec![at(12)]);
            assert_eq!(header, &vec![9]);
        },
        other => panic!("unexpected event {:?}", other),
    }
}

#[test]
fn mock_replay_changes_nothing() {
    let mut ctx = host(10, 100, 150);
    assert_eq!(execute(&mut ctx, &update(12, 120)), Ok(()));
    ctx.advance(at(1001), time(160));
    assert_eq!(execute(&mut ctx, &update(12, 120)), Ok(()));
    assert_eq!(ctx.event_count(), 2);
    assert_eq!(ctx.client_update_meta(&id(), at(12)), Ok((time(150), at(1000))));
    assert_eq!(client(&ctx).frozen_height(), None);
    assert_eq!(ctx.consensus_state_heights(&id()), Ok(vec![at(10), at(12)]));
}

#[test]
fn mock_conflict_freezes() {
    let mut ctx = host(10, 100, 150);
    assert_eq!(execute(&mut ctx, &update(12, 120)), Ok(()));
    // the same height at another time
    assert_eq!(execute(&mut ctx, &update(12, 121)), Ok(()));
    assert_eq!(client(&ctx).frozen_height(), Some(at(1000)));
    assert_eq!(ctx.event_count(), 4);
    assert!(matches!(ctx.event(2), IbcEvent::ClientMessage));
    assert!(matches!(ctx.event(3), IbcEvent::ClientMisbehaviour { .. }));
    let stored = ctx.consensus_state(&ClientConsensusStatePath::new(id(), 0, 12)).unwrap();
    assert_eq!(stored.timestamp(), time(120));
    assert_eq!(
        validate(&ctx, &update(13, 130)),
        client_error(ClientError::ClientNotActive { status: Status::Frozen })
    );
    assert_eq!(client_status(&ctx, &client(&ctx), &id()), Ok(Status::Frozen));
}

#[test]
fn mock_header_against_its_neighbours_in_time() {
    let cases: [(u64, u64, bool); 8] = [
        // between 10 (at 100) and 20 (at 200)
        (15, 150, false),
        (15, 100, true),
        (15, 99, true),
        (15, 200, true),
        (15, 201, true),
        // above both
        (25, 201, false),
        (25, 200, true),
        // below both
        (5, 100, true),
    ];
    for (h, t, conflict) in cases {
        let mut ctx = host(10, 100, 300);
        assert_eq!(execute(&mut ctx, &update(20, 200)), Ok(()));
        let msg = update(h, t);
        assert_eq!(
            check_for_misbehaviour(&ctx, &client(&ctx), &id(), &msg.client_message),
            Ok(conflict)
        );
        assert_eq!(execute(&mut ctx, &msg), Ok(()));
        assert_eq!(client(&ctx).frozen_height().is_some(), conflict, "header {} at {}", h, t);
        assert_eq!(
            ctx.consensus_state(&ClientConsensusStatePath::new(id(), 0, h)).is_ok(),
            !conflict
        );
    }
    let mut ctx = host(10, 100, 300);
    assert_eq!(execute(&mut ctx, &update(5, 99)), Ok(()));
    assert_eq!(client(&ctx).frozen_height(), None);
    assert_eq!(client(&ctx).latest_height(), at(10));
}

#[test]
fn mock_evidence() {
    assert!(check_mock_headers(&header(5, 50), &header(5, 51)));
    assert!(!check_mock_headers(&header(5, 50), &header(5, 50)));
    assert!(check_mock_headers(&header(6, 50), &header(5, 50)));
    assert!(check_mock_headers(&header(6, 49), &header(5, 50)));
    assert!(!check_mock_headers(&header(6, 51), &header(5, 50)));
    assert!(!check_mock_headers(&header(5, 50), &header(6, 40)));

    let mut ctx = host(10, 100, 150);
    let nothing = evidence(header(5, 50), header(5, 50));
    assert_eq!(validate(&ctx, &nothing), Ok(()));
    assert_eq!(execute(&mut ctx, &nothing), client_error(ClientError::MisbehaviourNotDetected));
    assert_eq!(client(&ctx).frozen_height(), None);
    let fork = evidence(header(5, 50), header(5, 51));
    assert_eq!(execute(&mut ctx, &fork), Ok(()));
    assert_eq!(client(&ctx).frozen_height(), Some(at(1000)));
    assert_eq!(ctx.event_count(), 2);
}

#[test]
fn message_for_another_client_type() {
    let mut ctx = host(10, 100, 150);
    let tendermint = ClientState::new(
        ChainId::from_str("testchain-0").unwrap(),
        TrustThreshold::two_thirds(),
        Duration::from_secs(10),
        Duration::from_secs(20),
        Duration::from_secs(1),
        at(10),
        Vec::new(),
        Vec::new(),
        false,
        false,
    )
    .unwrap();
    let other = ClientId::from_str("07-tendermint-0").unwrap();
    ctx.store_client_state(ClientStatePath::new(other.clone()), AnyClientState::Tendermint(tendermint))
        .unwrap();
    let mut msg = update(12, 120);
    msg.client_id = other.clone();
    // without a consensus state at its latest height the client is expired
    assert_eq!(
        validate(&ctx, &msg),
        client_error(ClientError::ClientNotActive { status: Status::Expired })
    );
    assert_eq!(execute(&mut ctx, &msg), client_error(ClientError::ClientTypeMismatch));
    let state = ctx.client_state(&other).unwrap();
    assert_eq!(
        verify_client_message(&ctx, &state, &other, &msg.client_message),
        client_error(ClientError::ClientTypeMismatch)
    );
    assert_eq!(
        check_for_misbehaviour(&ctx, &state, &other, &msg.client_message),
        Err(ContextError::ClientError(ClientError::ClientTypeMismatch))
    );
}

#[test]
fn header_of_another_revision_is_refused() {
    let mut ctx = host(10, 100, 150);
    let msg = MsgUpdateClient {
        client_id: id(),
        client_message: ClientMessage::MockHeader(MockHeader::new(
            Height::new(1, 1).unwrap(),
            time(120),
        )),
        wire: Vec::new(),
        signer: Signer { address: "relayer".to_string() },
    };
    assert_eq!(execute(&mut ctx, &msg), client_error(ClientError::InvalidHeader));
    assert_eq!(ctx.event_count(), 0);
    assert_eq!(client(&ctx).latest_height(), at(10));
}

#[test]
fn mock_status() {
    let ctx = host(10, 100, 1099);
    assert_eq!(client_status(&ctx, &client(&ctx), &id()), Ok(Status::Active));
    let ctx = host(10, 100, 1100);
    assert_eq!(client_status(&ctx, &client(&ctx), &id()), Ok(Status::Expired));
    // a host clock behind the consensus state
    let ctx = host(10, 100, 50);
    assert_eq!(client_status(&ctx, &client(&ctx), &id()), Ok(Status::Active));
    let frozen = client(&ctx).frozen_at(at(3));
    assert_eq!(client_status(&ctx, &frozen, &id()), Ok(Status::Frozen));
    assert_eq!(frozen.unfrozen().frozen_height(), None);
    let mut gone = host(10, 100, 150);
    gone.delete_consensus_state(ClientConsensusStatePath::new(id(), 0, 10)).unwrap();
    assert_eq!(client_status(&gone, &client(&gone), &id()), Ok(Status::Expired));
    assert!(Status::Active.is_active());
    assert!(!Status::Expired.is_active());
    assert!(!Status::Frozen.is_active());
    assert!(!Status::Unknown.is_active());
}

#[test]
fn state_functions_one_by_one() {
    let mut ctx = host(10, 100, 150);
    let state = client(&ctx);
    assert_eq!(
        update_state(
            &mut ctx,
            &state,
            &id(),
            at(11),
            time(110),
            AnyConsensusState::Mock(MockConsensusState::new(header(11, 110)))
        ),
        Ok(vec![at(11)])
    );
    assert_eq!(client(&ctx).latest_height(), at(11));
    assert_eq!(ctx.event_count(), 0);
    assert_eq!(
        update_state(
            &mut ctx,
            &state,
            &id(),
            Height::new(2, 1).unwrap(),
            time(110),
            AnyConsensusState::Mock(MockConsensusState::new(header(11, 110)))
        ),
        Err(ContextError::ClientError(ClientError::InvalidHeader))
    );
    // nothing is due at 150 + 1000
    ctx.advance(at(1001), time(1150));
    assert_eq!(prune_oldest_consensus_state(&mut ctx, &id(), Duration::from_nanos(1000)), Ok(()));
    assert_eq!(ctx.consensus_state_heights(&id()), Ok(vec![at(10), at(11)]));
    // one is pruned per call, the lowest first
    ctx.advance(at(1002), time(1151));
    assert_eq!(prune_oldest_consensus_state(&mut ctx, &id(), Duration::from_nanos(1000)), Ok(()));
    assert_eq!(ctx.consensus_state_heights(&id()), Ok(vec![at(11)]));
    assert_eq!(prune_oldest_consensus_state(&mut ctx, &id(), Duration::from_nanos(1000)), Ok(()));
    assert_eq!(ctx.consensus_state_heights(&id()), Ok(Vec::new()));
    assert_eq!(prune_oldest_consensus_state(&mut ctx, &id(), Duration::from_nanos(1000)), Ok(()));
    // a state without record of its storing stays
    ctx.store_consensus_state(
        ClientConsensusStatePath::new(id(), 0, 3),
        AnyConsensusState::Mock(MockConsensusState::new(header(3, 1))),
    )
    .unwrap();
    assert_eq!(prune_oldest_consensus_state(&mut ctx, &id(), Duration::from_nanos(0)), Ok(()));
    assert_eq!(ctx.consensus_state_heights(&id()), Ok(vec![at(3)]));

    assert_eq!(update_state_on_misbehaviour(&mut ctx, &state, &id()), Ok(()));
    assert_eq!(client(&ctx).frozen_height(), Some(at(1002)));
    assert_eq!(client(&ctx).latest_height(), at(10));
}

#[test]
fn type_urls() {
    let any = |url: &str| Any { type_url: url.to_string(), value: Vec::new() };
    assert_eq!(
        TENDERMINT_CLIENT_STATE_TYPE_URL,
        "/ibc.lightclients.tendermint.v1.ClientState"
    );
    assert_eq!(
        TENDERMINT_CONSENSUS_STATE_TYPE_URL,
        "/ibc.lightclients.tendermint.v1.ConsensusState"
    );
    assert_eq!(
        AnyClientState::type_of(&any(TENDERMINT_CLIENT_STATE_TYPE_URL)),
        Ok(ClientType::Tendermint)
    );
    assert_eq!(AnyClientState::type_of(&any(MOCK_CLIENT_STATE_TYPE_URL)), Ok(ClientType::Mock));
    assert_eq!(
        AnyClientState::type_of(&any(TENDERMINT_CONSENSUS_STATE_TYPE_URL)),
        Err(ClientError::UnknownStateType)
    );
    assert_eq!(AnyClientState::type_of(&any("")), Err(ClientError::UnknownStateType));
    assert_eq!(
        AnyConsensusState::type_of(&any(TENDERMINT_CONSENSUS_STATE_TYPE_URL)),
        Ok(ClientType::Tendermint)
    );
    assert_eq!(
        AnyConsensusState::type_of(&any(MOCK_CONSENSUS_STATE_TYPE_URL)),
        Ok(ClientType::Mock)
    );
    assert_eq!(
        AnyConsensusState::type_of(&any(MOCK_CLIENT_STATE_TYPE_URL)),
        Err(ClientError::UnknownStateType)
    );
    let state = AnyClientState::Mock(MockClientState::new(header(1, 1), Duration::from_nanos(1)));
    assert_eq!(state.type_url(), MOCK_CLIENT_STATE_TYPE_URL);
    assert_eq!(AnyClientState::type_of(&any(state.type_url())), Ok(state.client_type()));
    let consensus = AnyConsensusState::Mock(MockConsensusState::new(header(1, 1)));
    assert_eq!(consensus.type_url(), MOCK_CONSENSUS_STATE_TYPE_URL);
    assert_eq!(ClientType::Tendermint.as_str(), "07-tendermint");
    assert_eq!(ClientType::Mock.as_str(), "9999-mock");
}

#[test]
fn client_state_must_be_valid() {
    let build = |trusting: u64, unbonding: u64, drift: u64, num: u64, den: u64, latest: Height| {
        ClientState::new(
            ChainId::from_str("testchain-3").unwrap(),
            TrustThreshold { numerator: num, denominator: den },
            Duration::from_nanos(trusting),
            Duration::from_nanos(unbonding),
            Duration::from_nanos(drift),
            latest,
            Vec::new(),
            Vec::new(),
            true,
            false,
        )
        .map(|cs| cs.latest_height())
    };
    let good = Height::new(3, 1).unwrap();
    let refused = Err(ClientError::InvalidClientState);
    assert_eq!(build(1, 2, 1, 1, 3, good), Ok(good));
    assert_eq!(build(0, 2, 1, 1, 3, good), refused);
    assert_eq!(build(2, 2, 1, 1, 3, good), refused);
    assert_eq!(build(1, 2, 0, 1, 3, good), refused);
    assert_eq!(build(1, 2, 1, 1, 4, good), refused);
    assert_eq!(build(1, 2, 1, 4, 3, good), refused);
    assert_eq!(build(1, 2, 1, 0, 0, good), refused);
    assert_eq!(build(1, 2, 1, 3, 3, good), Ok(good));
    assert_eq!(build(1, 2, 1, 16, 16, good), Ok(good));
    assert_eq!(build(1, 2, 1, 17, 17, good), Ok(good));
    assert_eq!(build(1, 2, 1, 34, 100, good), Ok(good));
    assert_eq!(build(1, 2, 1, 33, 100, good), refused);
    assert_eq!(build(1, 2, 1, u64::MAX, u64::MAX, good), Ok(good));
    assert_eq!(build(1, 2, 1, u64::MAX / 3, u64::MAX, good), Ok(good));
    assert_eq!(build(1, 2, 1, u64::MAX / 3 - 1, u64::MAX, good), refused);
    assert_eq!(build(1, 2, 1, 6148914691236517205, 18446744073709551615, good), Ok(good));
    assert_eq!(build(1, 2, 1, 6148914691236517205, 18446744073709551614, good), Ok(good));
    assert_eq!(build(1, 2, 1, 6148914691236517204, 18446744073709551614, good), refused);
    assert_eq!(build(1, 2, 1, 1, 3, Height::new(2, 1).unwrap()), refused);
    assert!(TrustThreshold::one_third().is_valid());
    assert!(TrustThreshold::two_thirds().is_valid());
}

#[test]
fn dummy_counterparty() {
    let raw = dummy_raw_counterparty_conn(Some(7));
    assert_eq!(raw.client_id, "07-tendermint-0");
    assert_eq!(raw.connection_id, "connection-7");
    assert_eq!(raw.prefix.unwrap().key_prefix, b"ibc".to_vec());
    let raw = dummy_raw_counterparty_conn(None);
    assert_eq!(raw.client_id, "07-tendermint-0");
    assert_eq!(raw.connection_id, "");
    assert_eq!(raw.prefix.unwrap().key_prefix, b"ibc".to_vec());
    let raw = dummy_raw_counterparty_conn(Some(u64::MAX));
    assert_eq!(raw.connection_id, "connection-18446744073709551615");

    let built = CounterpartyConfig::builder().build();
    assert_eq!(built.client_id, "07-tendermint-0");
    assert_eq!(built.connection_id, "connection-0");
    assert_eq!(built.prefix.unwrap().key_prefix, b"ibc".to_vec());
    let built = CounterpartyConfig::builder()
        .client_id("9999-mock-3")
        .connection_id("connection-9")
        .prefix(Some(MerklePrefix { key_prefix: vec![1, 2] }))
        .build();
    assert_eq!(built.client_id, "9999-mock-3");
    assert_eq!(built.connection_id, "connection-9");
    assert_eq!(built.prefix.unwrap().key_prefix, vec![1, 2]);
    let bare = CounterpartyConfig::builder().prefix(None).build();
    assert!(bare.prefix.is_none());
}

#[test]
fn client_message_type_urls() {
    let any = |url: &str| Any { type_url: url.to_string(), value: Vec::new() };
    assert_eq!(TENDERMINT_HEADER_TYPE_URL, "/ibc.lightclients.tendermint.v1.Header");
    assert_eq!(TENDERMINT_MISBEHAVIOUR_TYPE_URL, "/ibc.lightclients.tendermint.v1.Misbehaviour");
    assert_eq!(
        ClientMessage::type_of(&any(TENDERMINT_HEADER_TYPE_URL)),
        Ok((ClientType::Tendermint, UpdateKind::UpdateClient))
    );
    assert_eq!(
        ClientMessage::type_of(&any(TENDERMINT_MISBEHAVIOUR_TYPE_URL)),
        Ok((ClientType::Tendermint, UpdateKind::SubmitMisbehaviour))
    );
    assert_eq!(
        ClientMessage::type_of(&any(MOCK_HEADER_TYPE_URL)),
        Ok((ClientType::Mock, UpdateKind::UpdateClient))
    );
    assert_eq!(
        ClientMessage::type_of(&any(MOCK_MISBEHAVIOUR_TYPE_URL)),
        Ok((ClientType::Mock, UpdateKind::SubmitMisbehaviour))
    );
    assert_eq!(
        ClientMessage::type_of(&any(TENDERMINT_CLIENT_STATE_TYPE_URL)),
        Err(ClientError::UnknownStateType)
    );
    let header_msg = update(3, 30).client_message;
    assert_eq!(header_msg.type_url(), MOCK_HEADER_TYPE_URL);
    assert_eq!(header_msg.update_kind(), UpdateKind::UpdateClient);
    assert_eq!(header_msg.client_type(), ClientType::Mock);
    assert!(header_msg.is_header());
    let evidence_msg = evidence(header(5, 50), header(5, 51)).client_message;
    assert_eq!(evidence_msg.type_url(), MOCK_MISBEHAVIOUR_TYPE_URL);
    assert_eq!(evidence_msg.update_kind(), UpdateKind::SubmitMisbehaviour);
    assert!(evidence_msg.header_parts().is_none());
    let (h, t, derived) = header_msg.header_parts().unwrap();
    assert_eq!((h, t), (at(3), time(30)));
    assert_eq!(derived.timestamp(), time(30));
}

#[test]
fn storage_keys() {
    let id = ClientId::from_str("07-tendermint-12").unwrap();
    let height = Height::new(3, 4567).unwrap();
    assert_eq!(
        ClientStatePath::new(id.clone()).to_string(),
        "clients/07-tendermint-12/clientState"
    );
    assert_eq!(
        ClientConsensusStatePath::new(id.clone(), 3, 4567).to_string(),
        "clients/07-tendermint-12/consensusStates/3-4567"
    );
    assert_eq!(
        processed_time_path(&id, &height),
        "clients/07-tendermint-12/processedTime/3-4567"
    );
    assert_eq!(
        processed_height_path(&id, &height),
        "clients/07-tendermint-12/processedHeight/3-4567"
    );
    assert_eq!(height_to_string(&height), "3-4567");
    assert_eq!(height_to_string(&Height::new(0, 1).unwrap()), "0-1");
    assert_eq!(
        height_to_string(&Height::new(u64::MAX, u64::MAX).unwrap()),
        "18446744073709551615-18446744073709551615"
    );
}

use ibc_light_client::any::{AnyClientState, AnyConsensusState, ClientType};
use ibc_light_client::block::VerdictKind;
use ibc_light_client::client_state::{
    detect_misbehaviour, overlap_result, verdict_result, ClientState, Detection, TrustThreshold,
};
use ibc_light_client::context::{
    ClientConsensusStatePath, ClientStatePath, ExecutionContext, Signer, ValidationContext,
};
use ibc_light_client::error::{ClientError, ContextError, Status};
use ibc_light_client::event::IbcEvent;
use ibc_light_client::handler::update_client::{execute, validate};
use ibc_light_client::header::Header;
use ibc_light_client::height::Height;
use ibc_light_client::identifier::{ChainId, ClientId};
use ibc_light_client::client::client_status;
use ibc_light_client::message::{ClientMessage, MsgUpdateClient};
use ibc_light_client::misbehaviour::Misbehaviour;
use ibc_light_client::store::MockContext;
use ibc_light_client::timestamp::{Duration, Timestamp};
use tendermint::block::CommitSig;
use tendermint::{AppHash, Time};
use tendermint_testgen::light_block::TmLightBlock;
use tendermint_testgen::{Generator, Header as GenHeader, LightBlock, Validator};

const CHAIN: &str = "testchain-0";
const T0: i64 = 1_700_000_000;
const SECOND: u64 = 1_000_000_000;

fn nanos(secs: i64) -> Timestamp {
    Timestamp::from_nanoseconds(secs as u64 * SECOND)
}

fn height(h: u64) -> Height {
    Height::new(0, h).unwrap()
}

fn client_id() -> ClientId {
    ClientId::from_str("07-tendermint-0").unwrap()
}

fn signer() -> Signer {
    Signer { address: "relayer".to_string() }
}

fn validators() -> Vec<Validator> {
    vec![
        Validator::new("1").voting_power(50),
        Validator::new("2").voting_power(50),
    ]
}

fn block(vals: &[Validator], next: &[Validator], h: u64, secs: i64, root: &[u8]) -> TmLightBlock {
    let header = GenHeader::new(vals)
        .height(h)
        .chain_id(CHAIN)
        .next_validators(next)
        .time(Time::from_unix_timestamp(secs, 0).unwrap())
        .app_hash(AppHash::try_from(root.to_vec()).unwrap());
    let mut block = LightBlock::new_default_with_header(header);
    block.next_validators = Some(next.to_vec());
    block.generate().unwrap()
}

fn header(block: &TmLightBlock, trusted: &TmLightBlock, trusted_height: u64) -> Header {
    Header::new(
        block.signed_header.clone(),
        block.validators.clone(),
        height(trusted_height),
        trusted.next_validators.clone(),
    )
    .unwrap()
}

fn client_state(latest: u64, trust: TrustThreshold) -> ClientState {
    ClientState::new(
        ChainId::from_str(CHAIN).unwrap(),
        trust,
        Duration::from_secs(3600),
        Duration::from_secs(7200),
        Duration::from_secs(5),
        height(latest),
        Vec::new(),
        vec!["upgrade".to_string(), "upgradedIBCState".to_string()],
        false,
        false,
    )
    .unwrap()
}

/// A host at time `now` with a client created from `first` at its height.
fn host_with_client(first: &TmLightBlock, h: u64, now: i64, trust: TrustThreshold) -> MockContext {
    let mut ctx = MockContext::new(height(100), nanos(now));
    let id = client_id();
    let genesis = header(first, first, h.max(2) - 1).consensus_state();
    ctx.store_client_state(
        ClientStatePath::new(id.clone()),
        AnyClientState::Tendermint(client_state(h, trust)),
    )
    .unwrap();
    ctx.store_consensus_state(
        ClientConsensusStatePath::new(id.clone(), 0, h),
        AnyConsensusState::Tendermint(genesis),
    )
    .unwrap();
    ctx.store_update_meta(&id, height(h), nanos(now), height(100)).unwrap();
    ctx
}

fn update(h: Header) -> MsgUpdateClient {
    MsgUpdateClient {
        client_id: client_id(),
        client_message: ClientMessage::TendermintHeader(h),
        wire: vec![1, 2, 3],
        signer: signer(),
    }
}

fn latest_height(ctx: &MockContext) -> Height {
    ctx.client_state(&client_id()).unwrap().latest_height()
}

#[test]
fn happy_adjacent_update() {
    let vals = validators();
    let b10 = block(&vals, &vals, 10, T0, b"root-10");
    let b11 = block(&vals, &vals, 11, T0 + 1, b"root-11");
    let mut ctx = host_with_client(&b10, 10, T0, TrustThreshold::one_third());
    let msg = update(header(&b11, &b10, 10));

    assert_eq!(validate(&ctx, &msg), Ok(()));
    assert_eq!(execute(&mut ctx, &msg), Ok(()));

    assert_eq!(latest_height(&ctx), height(11));
    assert_eq!(ctx.event_count(), 2);
    assert!(matches!(ctx.event(0), IbcEvent::ClientMessage));
    match ctx.event(1) {
        IbcEvent::UpdateClient { client_type, consensus_height, consensus_heights, header, .. } => {
            assert_eq!(*client_type, ClientType::Tendermint);
            assert_eq!(*consensus_height, height(11));
            assert_eq!(consensus_heights, &vec![height(11)]);
            assert_eq!(header, &vec![1, 2, 3]);
        },
        other => panic!("unexpected event {:?}", other),
    }
    let stored = ctx
        .consensus_state(&ClientConsensusStatePath::new(client_id(), 0, 11))
        .unwrap();
    match stored {
        AnyConsensusState::Tendermint(cs) => {
            assert_eq!(cs.timestamp, nanos(T0 + 1));
            assert_eq!(cs.root, b"root-11".to_vec());
        },
        other => panic!("unexpected consensus state {:?}", other),
    }
    assert_eq!(
        ctx.client_update_meta(&client_id(), height(11)),
        Ok((nanos(T0), height(100)))
    );
}

fn frozen_height(ctx: &MockContext) -> Option<Height> {
    ctx.client_state(&client_id()).unwrap().frozen_height()
}

fn stored_root(ctx: &MockContext, h: u64) -> Vec<u8> {
    match ctx
        .consensus_state(&ClientConsensusStatePath::new(client_id(), 0, h))
        .unwrap()
    {
        AnyConsensusState::Tendermint(cs) => cs.root,
        other => panic!("unexpected consensus state {:?}", other),
    }
}

fn client_error(e: ClientError) -> Result<(), ContextError> {
    Err(ContextError::ClientError(e))
}

#[test]
fn skipping_update_with_one_third_overlap() {
    // the stored next validators: 34 + 33 + 33
    let trusted = vec![
        Validator::new("a").voting_power(34),
        Validator::new("b").voting_power(33),
        Validator::new("c").voting_power(33),
    ];
    // the new set shares exactly 34% of the stored power
    let fresh = vec![
        Validator::new("a").voting_power(34),
        Validator::new("d").voting_power(66),
    ];
    let b10 = block(&trusted, &trusted, 10, T0, b"root-10");
    let b50 = block(&fresh, &fresh, 50, T0 + 40, b"root-50");
    let mut ctx = host_with_client(&b10, 10, T0 + 41, TrustThreshold::one_third());
    let msg = update(header(&b50, &b10, 10));

    assert_eq!(validate(&ctx, &msg), Ok(()));
    assert_eq!(execute(&mut ctx, &msg), Ok(()));
    assert_eq!(latest_height(&ctx), height(50));
    assert_eq!(stored_root(&ctx, 50), b"root-50".to_vec());
}

#[test]
fn skipping_update_below_one_third_overlap_is_refused() {
    let trusted = vec![
        Validator::new("a").voting_power(33),
        Validator::new("b").voting_power(34),
        Validator::new("c").voting_power(33),
    ];
    let fresh = vec![
        Validator::new("a").voting_power(33),
        Validator::new("d").voting_power(67),
    ];
    let b10 = block(&trusted, &trusted, 10, T0, b"root-10");
    let b50 = block(&fresh, &fresh, 50, T0 + 40, b"root-50");
    let ctx = host_with_client(&b10, 10, T0 + 41, TrustThreshold::one_third());
    let msg = update(header(&b50, &b10, 10));

    assert_eq!(validate(&ctx, &msg), client_error(ClientError::InsufficientVotingPower));
}

#[test]
fn commit_of_half_the_validators_is_refused() {
    let vals = validators();
    let b10 = block(&vals, &vals, 10, T0, b"root-10");
    let mut b11 = block(&vals, &vals, 11, T0 + 1, b"root-11");
    b11.signed_header.commit.signatures[1] = CommitSig::BlockIdFlagAbsent;
    let ctx = host_with_client(&b10, 10, T0, TrustThreshold::one_third());
    let msg = update(header(&b11, &b10, 10));

    assert_eq!(validate(&ctx, &msg), client_error(ClientError::InsufficientVotingPower));
}

#[test]
fn tampered_header_is_invalid() {
    let vals = validators();
    let b10 = block(&vals, &vals, 10, T0, b"root-10");
    let mut b11 = block(&vals, &vals, 11, T0 + 1, b"root-11");
    // the commit no longer signs this header
    b11.signed_header.header.app_hash = AppHash::try_from(b"forged".to_vec()).unwrap();
    let ctx = host_with_client(&b10, 10, T0, TrustThreshold::one_third());
    let msg = update(header(&b11, &b10, 10));

    assert_eq!(validate(&ctx, &msg), client_error(ClientError::InvalidHeader));
}

#[test]
fn equivocation_freezes_the_client() {
    let vals = validators();
    let b10 = block(&vals, &vals, 10, T0, b"root-10");
    let b20 = block(&vals, &vals, 20, T0 + 10, b"R1");
    let forked = block(&vals, &vals, 20, T0 + 10, b"R2");
    let mut ctx = host_with_client(&b10, 10, T0 + 11, TrustThreshold::one_third());
    let first = update(header(&b20, &b10, 10));
    assert_eq!(validate(&ctx, &first), Ok(()));
    assert_eq!(execute(&mut ctx, &first), Ok(()));
    assert_eq!(stored_root(&ctx, 20), b"R1".to_vec());
    let events_before = ctx.event_count();

    let second = update(header(&forked, &b10, 10));
    assert_eq!(validate(&ctx, &second), Ok(()));
    assert_eq!(execute(&mut ctx, &second), Ok(()));

    assert_eq!(frozen_height(&ctx), Some(height(100)));
    assert_eq!(stored_root(&ctx, 20), b"R1".to_vec());
    assert_eq!(ctx.event_count(), events_before + 2);
    assert!(matches!(ctx.event(events_before), IbcEvent::ClientMessage));
    assert!(matches!(
        ctx.event(events_before + 1),
        IbcEvent::ClientMisbehaviour { client_type: ClientType::Tendermint, .. }
    ));
    let mut misbehaviours = 0;
    for i in 0..ctx.event_count() {
        if matches!(ctx.event(i), IbcEvent::ClientMisbehaviour { .. }) {
            misbehaviours += 1;
        }
    }
    assert_eq!(misbehaviours, 1);
}

#[test]
fn frozen_client_rejects_every_update() {
    let vals = validators();
    let b10 = block(&vals, &vals, 10, T0, b"root-10");
    let b20 = block(&vals, &vals, 20, T0 + 10, b"R1");
    let forked = block(&vals, &vals, 20, T0 + 10, b"R2");
    let b21 = block(&vals, &vals, 21, T0 + 11, b"root-21");
    let mut ctx = host_with_client(&b10, 10, T0 + 12, TrustThreshold::one_third());
    assert_eq!(execute(&mut ctx, &update(header(&b20, &b10, 10))), Ok(()));
    assert_eq!(execute(&mut ctx, &update(header(&forked, &b10, 10))), Ok(()));
    assert!(frozen_height(&ctx).is_some());

    let frozen = client_error(ClientError::ClientNotActive { status: Status::Frozen });
    assert_eq!(validate(&ctx, &update(header(&b21, &b20, 20))), frozen);
    assert_eq!(validate(&ctx, &update(header(&b20, &b10, 10))), frozen);
    let evidence = MsgUpdateClient {
        client_id: client_id(),
        client_message: ClientMessage::TendermintMisbehaviour(Misbehaviour::new(
            client_id(),
            header(&b20, &b10, 10),
            header(&forked, &b10, 10),
        )),
        wire: Vec::new(),
        signer: signer(),
    };
    assert_eq!(validate(&ctx, &evidence), frozen);
}

#[test]
fn monotonic_time_violation_is_misbehaviour() {
    let vals = validators();
    let b10 = block(&vals, &vals, 10, T0, b"root-10");
    let b30 = block(&vals, &vals, 30, T0 + 40, b"root-30");
    let b25 = block(&vals, &vals, 25, T0 + 50, b"root-25");
    let mut ctx = host_with_client(&b10, 10, T0 + 60, TrustThreshold::one_third());
    let msg = MsgUpdateClient {
        client_id: client_id(),
        client_message: ClientMessage::TendermintMisbehaviour(Misbehaviour::new(
            client_id(),
            header(&b30, &b10, 10),
            header(&b25, &b10, 10),
        )),
        wire: Vec::new(),
        signer: signer(),
    };

    assert_eq!(validate(&ctx, &msg), Ok(()));
    assert_eq!(execute(&mut ctx, &msg), Ok(()));
    assert_eq!(frozen_height(&ctx), Some(height(100)));
    assert_eq!(ctx.event_count(), 2);
    assert!(matches!(ctx.event(1), IbcEvent::ClientMisbehaviour { .. }));
}

#[test]
fn evidence_of_nothing_is_refused() {
    let vals = validators();
    let b10 = block(&vals, &vals, 10, T0, b"root-10");
    let b30 = block(&vals, &vals, 30, T0 + 40, b"root-30");
    let b25 = block(&vals, &vals, 25, T0 + 30, b"root-25");
    let mut ctx = host_with_client(&b10, 10, T0 + 60, TrustThreshold::one_third());
    // the same header twice
    let twice = MsgUpdateClient {
        client_id: client_id(),
        client_message: ClientMessage::TendermintMisbehaviour(Misbehaviour::new(
            client_id(),
            header(&b30, &b10, 10),
            header(&b30, &b10, 10),
        )),
        wire: Vec::new(),
        signer: signer(),
    };
    assert_eq!(
        execute(&mut ctx, &twice),
        client_error(ClientError::MisbehaviourNotDetected)
    );
    // two headers in the order of time
    let ordered = MsgUpdateClient {
        client_id: client_id(),
        client_message: ClientMessage::TendermintMisbehaviour(Misbehaviour::new(
            client_id(),
            header(&b30, &b10, 10),
            header(&b25, &b10, 10),
        )),
        wire: Vec::new(),
        signer: signer(),
    };
    assert_eq!(
        execute(&mut ctx, &ordered),
        client_error(ClientError::MisbehaviourNotDetected)
    );
    // the lower header first
    let reversed = MsgUpdateClient {
        client_id: client_id(),
        client_message: ClientMessage::TendermintMisbehaviour(Misbehaviour::new(
            client_id(),
            header(&b25, &b10, 10),
            header(&b30, &b10, 10),
        )),
        wire: Vec::new(),
        signer: signer(),
    };
    assert_eq!(validate(&ctx, &reversed), client_error(ClientError::InvalidMisbehaviour));
    assert_eq!(frozen_height(&ctx), None);
    assert_eq!(ctx.event_count(), 0);
}

#[test]
fn expired_trusted_state() {
    let vals = validators();
    let b10 = block(&vals, &vals, 10, T0, b"root-10");
    let b11 = block(&vals, &vals, 11, T0 + 3599, b"root-11");
    let cs = client_state(10, TrustThreshold::one_third());
    let trusted = header(&b10, &b10, 9).consensus_state();
    let h = header(&b11, &b10, 10);
    // now - trusted.time is the trusting period exactly
    let now = nanos(T0 + 3600);

    assert_eq!(cs.verify_header(&h, &trusted, now), Err(ClientError::HeaderInThePast));
    assert_eq!(cs.verify_misbehaviour_header(&h, &trusted, now), Ok(()));
    // one nanosecond earlier the trusted state is still good
    let earlier = Timestamp::from_nanoseconds(now.nanoseconds() - 1);
    assert_eq!(cs.verify_header(&h, &trusted, earlier), Ok(()));
}

#[test]
fn expired_client_is_not_active() {
    let vals = validators();
    let b10 = block(&vals, &vals, 10, T0, b"root-10");
    let b11 = block(&vals, &vals, 11, T0 + 1, b"root-11");
    let ctx = host_with_client(&b10, 10, T0 + 3600, TrustThreshold::one_third());
    let state = ctx.client_state(&client_id()).unwrap();

    assert_eq!(client_status(&ctx, &state, &client_id()), Ok(Status::Expired));
    assert_eq!(
        validate(&ctx, &update(header(&b11, &b10, 10))),
        client_error(ClientError::ClientNotActive { status: Status::Expired })
    );
    let young = host_with_client(&b10, 10, T0 + 3599, TrustThreshold::one_third());
    assert_eq!(client_status(&young, &state, &client_id()), Ok(Status::Active));
}

#[test]
fn idempotent_replay() {
    let vals = validators();
    let b10 = block(&vals, &vals, 10, T0, b"root-10");
    let b11 = block(&vals, &vals, 11, T0 + 1, b"root-11");
    let mut ctx = host_with_client(&b10, 10, T0, TrustThreshold::one_third());
    let msg = update(header(&b11, &b10, 10));
    assert_eq!(validate(&ctx, &msg), Ok(()));
    assert_eq!(execute(&mut ctx, &msg), Ok(()));
    assert_eq!(ctx.event_count(), 2);

    // later, on another block of the host, the same header again
    ctx.advance(height(101), nanos(T0 + 2));
    assert_eq!(validate(&ctx, &msg), Ok(()));
    assert_eq!(execute(&mut ctx, &msg), Ok(()));

    assert_eq!(ctx.event_count(), 2);
    assert_eq!(latest_height(&ctx), height(11));
    assert_eq!(frozen_height(&ctx), None);
    assert_eq!(stored_root(&ctx, 11), b"root-11".to_vec());
    assert_eq!(
        ctx.client_update_meta(&client_id(), height(11)),
        Ok((nanos(T0), height(100)))
    );
    assert_eq!(ctx.consensus_state_heights(&client_id()), Ok(vec![height(10), height(11)]));
}

#[test]
fn header_faults_in_order() {
    let vals = validators();
    let others = vec![Validator::new("x").voting_power(100)];
    let b10 = block(&vals, &vals, 10, T0, b"root-10");
    let cs = client_state(10, TrustThreshold::one_third());
    let trusted = header(&b10, &b10, 9).consensus_state();
    let now = nanos(T0 + 100);

    // another chain
    let foreign = GenHeader::new(&vals)
        .height(11)
        .chain_id("otherchain-0")
        .next_validators(&vals)
        .time(Time::from_unix_timestamp(T0 + 1, 0).unwrap());
    let foreign = LightBlock::new_default_with_header(foreign).generate().unwrap();
    assert_eq!(
        cs.verify_header(&header(&foreign, &b10, 10), &trusted, now),
        Err(ClientError::InvalidHeader)
    );
    // a height that is not above the trusted one
    let b11 = block(&vals, &vals, 11, T0 + 1, b"root-11");
    assert_eq!(
        cs.verify_header(&header(&b11, &b10, 11), &trusted, now),
        Err(ClientError::NonMonotonicHeader)
    );
    // a time that is not after the trusted one
    let stale = block(&vals, &vals, 11, T0, b"root-11");
    assert_eq!(
        cs.verify_header(&header(&stale, &b10, 10), &trusted, now),
        Err(ClientError::NonMonotonicHeader)
    );
    // a time at the host time plus the clock drift
    let early = block(&vals, &vals, 11, T0 + 105, b"root-11");
    assert_eq!(
        cs.verify_header(&header(&early, &b10, 10), &trusted, now),
        Err(ClientError::HeaderInTheFuture)
    );
    let just_in_time = block(&vals, &vals, 11, T0 + 104, b"root-11");
    assert_eq!(cs.verify_header(&header(&just_in_time, &b10, 10), &trusted, now), Ok(()));
    // a validator set that the header does not name
    let mut swapped = block(&vals, &vals, 11, T0 + 1, b"root-11");
    swapped.validators = block(&others, &others, 11, T0 + 1, b"root-11").validators;
    assert_eq!(
        cs.verify_header(&header(&swapped, &b10, 10), &trusted, now),
        Err(ClientError::InvalidHeader)
    );
    // a trusted validator set that the consensus state does not name
    let elsewhere = block(&others, &others, 10, T0, b"root-10");
    assert_eq!(
        cs.verify_header(&header(&b11, &elsewhere, 10), &trusted, now),
        Err(ClientError::TrustedValidatorSetMismatch)
    );
    // an adjacent header by validators that were not announced
    let b10_announcing = block(&vals, &vals, 10, T0, b"root-10");
    let usurped = block(&others, &others, 11, T0 + 1, b"root-11");
    assert_eq!(
        cs.verify_header(&header(&usurped, &b10_announcing, 10), &trusted, now),
        Err(ClientError::InvalidHeader)
    );
}

#[test]
fn unknown_client_and_missing_trusted_state() {
    let vals = validators();
    let b10 = block(&vals, &vals, 10, T0, b"root-10");
    let b11 = block(&vals, &vals, 11, T0 + 1, b"root-11");
    let b12 = block(&vals, &vals, 12, T0 + 2, b"root-12");
    let mut empty = MockContext::new(height(100), nanos(T0));
    let msg = update(header(&b11, &b10, 10));
    assert_eq!(validate(&empty, &msg), client_error(ClientError::ClientNotFound));
    assert_eq!(execute(&mut empty, &msg), client_error(ClientError::ClientNotFound));

    let ctx = host_with_client(&b10, 10, T0 + 3, TrustThreshold::one_third());
    let unanchored = update(header(&b12, &b11, 11));
    assert_eq!(
        validate(&ctx, &unanchored),
        client_error(ClientError::ConsensusStateNotFound { height: height(11) })
    );
}

#[test]
fn update_below_the_latest_height_keeps_the_latest_height() {
    let vals = validators();
    let b10 = block(&vals, &vals, 10, T0, b"root-10");
    let b20 = block(&vals, &vals, 20, T0 + 10, b"root-20");
    let b15 = block(&vals, &vals, 15, T0 + 5, b"root-15");
    let mut ctx = host_with_client(&b10, 10, T0 + 11, TrustThreshold::one_third());
    assert_eq!(execute(&mut ctx, &update(header(&b20, &b10, 10))), Ok(()));
    let between = update(header(&b15, &b10, 10));
    assert_eq!(validate(&ctx, &between), Ok(()));
    assert_eq!(execute(&mut ctx, &between), Ok(()));

    assert_eq!(latest_height(&ctx), height(20));
    assert_eq!(frozen_height(&ctx), None);
    assert_eq!(
        ctx.consensus_state_heights(&client_id()),
        Ok(vec![height(10), height(15), height(20)])
    );
}

#[test]
fn header_out_of_the_order_of_time_freezes_the_client() {
    let vals = validators();
    let b10 = block(&vals, &vals, 10, T0, b"root-10");
    let b20 = block(&vals, &vals, 20, T0 + 10, b"root-20");
    // between 10 and 20 in height, but not earlier than 20 in time
    let b15 = block(&vals, &vals, 15, T0 + 10, b"root-15");
    let mut ctx = host_with_client(&b10, 10, T0 + 11, TrustThreshold::one_third());
    assert_eq!(execute(&mut ctx, &update(header(&b20, &b10, 10))), Ok(()));
    let between = update(header(&b15, &b10, 10));
    assert_eq!(validate(&ctx, &between), Ok(()));
    assert_eq!(execute(&mut ctx, &between), Ok(()));

    assert_eq!(frozen_height(&ctx), Some(height(100)));
    assert_eq!(ctx.consensus_state_heights(&client_id()), Ok(vec![height(10), height(20)]));
}

#[test]
fn oldest_expired_consensus_state_is_pruned() {
    let vals = validators();
    let b10 = block(&vals, &vals, 10, T0, b"root-10");
    let b20 = block(&vals, &vals, 20, T0 + 3000, b"root-20");
    let b30 = block(&vals, &vals, 30, T0 + 4000, b"root-30");
    let mut ctx = host_with_client(&b10, 10, T0, TrustThreshold::one_third());
    ctx.advance(height(200), nanos(T0 + 3001));
    assert_eq!(execute(&mut ctx, &update(header(&b20, &b10, 10))), Ok(()));
    assert_eq!(ctx.consensus_state_heights(&client_id()), Ok(vec![height(10), height(20)]));

    // the state at height 10 was stored at T0: at T0 + 3600 it is not yet
    // older than the trusting period
    ctx.advance(height(300), nanos(T0 + 3600));
    let b25 = block(&vals, &vals, 25, T0 + 3500, b"root-25");
    assert_eq!(execute(&mut ctx, &update(header(&b25, &b20, 20))), Ok(()));
    assert_eq!(
        ctx.consensus_state_heights(&client_id()),
        Ok(vec![height(10), height(20), height(25)])
    );
    // one second later it is
    ctx.advance(height(301), nanos(T0 + 3601));
    assert_eq!(execute(&mut ctx, &update(header(&b30, &b20, 20))), Ok(()));
    assert_eq!(
        ctx.consensus_state_heights(&client_id()),
        Ok(vec![height(20), height(25), height(30)])
    );
    assert_eq!(
        ctx.client_update_meta(&client_id(), height(10)),
        Err(ContextError::ClientError(ClientError::ProcessedTimeNotFound { height: height(10) }))
    );
    assert_eq!(
        ctx.client_update_meta(&client_id(), height(30)),
        Ok((nanos(T0 + 3601), height(301)))
    );
}

#[test]
fn header_with_validators_beyond_the_power_bound_is_refused() {
    let vals = validators();
    let b10 = block(&vals, &vals, 10, T0, b"root-10");
    let b11 = block(&vals, &vals, 11, T0 + 1, b"root-11");
    let mut heavy = b11.validators.validators().clone();
    for validator in heavy.iter_mut() {
        validator.power = tendermint::vote::Power::try_from(i64::MAX as u64 / 8).unwrap();
    }
    let beyond = tendermint::validator::Set {
        validators: heavy,
        proposer: None,
        total_voting_power: tendermint::vote::Power::default(),
    };
    let refused = Header::new(
        b11.signed_header.clone(),
        beyond.clone(),
        height(10),
        b10.next_validators.clone(),
    );
    assert_eq!(refused.err(), Some(ClientError::InvalidHeader));
    let refused = Header::new(
        b11.signed_header.clone(),
        b11.validators.clone(),
        height(10),
        beyond,
    );
    assert_eq!(refused.err(), Some(ClientError::InvalidHeader));
    // a set that states another total than its powers sum to
    let mut misstated = b11.validators.clone();
    misstated.total_voting_power = tendermint::vote::Power::try_from(7u64).unwrap();
    let refused = Header::new(b11.signed_header.clone(), misstated, height(10), b10.next_validators);
    assert_eq!(refused.err(), Some(ClientError::InvalidHeader));
}

#[test]
fn header_reads_the_block() {
    let vals = validators();
    let b10 = block(&vals, &vals, 10, T0, b"root-10");
    let b11 = block(&vals, &vals, 11, T0 + 1, b"root-11");
    let h = header(&b11, &b10, 10);
    assert_eq!(h.height(), height(11));
    assert_eq!(h.trusted_height(), height(10));
    assert_eq!(h.time(), nanos(T0 + 1));
    assert_eq!(h.chain_id().as_str(), CHAIN);
    assert_eq!(h.block_hash(), &b11.signed_header.commit.block_id.hash.as_bytes().to_vec());
    assert_eq!(h.validators_hash(), &b11.validators.hash().as_bytes().to_vec());
    assert_eq!(h.validator_set_hash(), h.validators_hash());
    assert_eq!(h.next_validators_hash(), &b11.next_validators.hash().as_bytes().to_vec());
    assert_eq!(
        h.trusted_next_validator_set_hash(),
        &b10.next_validators.hash().as_bytes().to_vec()
    );
    let derived = h.consensus_state();
    assert_eq!(derived.timestamp(), nanos(T0 + 1));
    assert_eq!(derived.root, b"root-11".to_vec());
    assert_eq!(&derived.next_validators_hash, h.next_validators_hash());
    assert!(derived.same(&derived.duplicate()));

    // the revision of the height is the one that the chain identifier names
    let revised = GenHeader::new(&vals)
        .height(5)
        .chain_id("testchain-7")
        .next_validators(&vals)
        .time(Time::from_unix_timestamp(T0, 0).unwrap());
    let revised = LightBlock::new_default_with_header(revised).generate().unwrap();
    let h = Header::new(
        revised.signed_header.clone(),
        revised.validators.clone(),
        Height::new(7, 4).unwrap(),
        revised.next_validators.clone(),
    )
    .unwrap();
    assert_eq!(h.height(), Height::new(7, 5).unwrap());
}

#[test]
fn stored_consensus_states_stand_in_the_order_of_time() {
    let vals = validators();
    let b10 = block(&vals, &vals, 10, T0, b"root-10");
    let mut ctx = host_with_client(&b10, 10, T0 + 100, TrustThreshold::one_third());
    for (h, secs) in [(40u64, 40i64), (20, 20), (30, 30), (25, 25), (50, 50), (35, 31)] {
        let b = block(&vals, &vals, h, T0 + secs, b"root");
        let msg = update(header(&b, &b10, 10));
        assert_eq!(validate(&ctx, &msg), Ok(()));
        assert_eq!(execute(&mut ctx, &msg), Ok(()));
    }
    assert_eq!(frozen_height(&ctx), None);
    let heights = ctx.consensus_state_heights(&client_id()).unwrap();
    assert_eq!(heights.len(), 7);
    assert_eq!(latest_height(&ctx), height(50));
    for h in &heights {
        let here = ctx
            .consensus_state(&ClientConsensusStatePath::new(
                client_id(),
                h.revision_number(),
                h.revision_height(),
            ))
            .unwrap()
            .timestamp();
        if let Some(above) = ctx.next_consensus_state(&client_id(), h).unwrap() {
            assert!(above.timestamp().nanoseconds() > here.nanoseconds());
        }
        if let Some(below) = ctx.prev_consensus_state(&client_id(), h).unwrap() {
            assert!(below.timestamp().nanoseconds() < here.nanoseconds());
        }
        assert!(h.is_le(&latest_height(&ctx)));
    }
}

#[test]
fn header_against_the_consensus_state_at_its_height() {
    let vals = validators();
    let b10 = block(&vals, &vals, 10, T0, b"root-10");
    let b20 = block(&vals, &vals, 20, T0 + 10, b"R1");
    let stored = header(&b20, &b10, 10).consensus_state();
    assert_eq!(detect_misbehaviour(&stored, &header(&b20, &b10, 10)), Detection::Consistent);
    // the trusted height is no part of the consensus state
    assert_eq!(detect_misbehaviour(&stored, &header(&b20, &b10, 15)), Detection::Consistent);
    let other_root = block(&vals, &vals, 20, T0 + 10, b"R2");
    assert_eq!(detect_misbehaviour(&stored, &header(&other_root, &b10, 10)), Detection::Conflict);
    let other_time = block(&vals, &vals, 20, T0 + 11, b"R1");
    assert_eq!(detect_misbehaviour(&stored, &header(&other_time, &b10, 10)), Detection::Conflict);
    let others = vec![Validator::new("x").voting_power(100)];
    let other_next = block(&vals, &others, 20, T0 + 10, b"R1");
    assert_eq!(detect_misbehaviour(&stored, &header(&other_next, &b10, 10)), Detection::Conflict);
}

#[test]
fn outcomes_of_the_checks_of_a_commit() {
    let want_of_power = Err(ClientError::InsufficientVotingPower);
    assert_eq!(verdict_result(VerdictKind::Success), Ok(()));
    assert_eq!(verdict_result(VerdictKind::NotEnoughTrust), want_of_power);
    assert_eq!(verdict_result(VerdictKind::InsufficientSigners), want_of_power);
    assert_eq!(verdict_result(VerdictKind::Invalid), Err(ClientError::InvalidHeader));
    assert_eq!(overlap_result(None), Err(ClientError::InvalidHeader));
    assert_eq!(overlap_result(Some(VerdictKind::Success)), Ok(()));
    assert_eq!(overlap_result(Some(VerdictKind::NotEnoughTrust)), want_of_power);
    assert_eq!(overlap_result(Some(VerdictKind::InsufficientSigners)), want_of_power);
    assert_eq!(overlap_result(Some(VerdictKind::Invalid)), Err(ClientError::InvalidHeader));
}

#[test]
fn trust_levels_with_large_terms() {
    let trusted = vec![
        Validator::new("a").voting_power(34),
        Validator::new("b").voting_power(33),
        Validator::new("c").voting_power(33),
    ];
    let fresh = vec![
        Validator::new("a").voting_power(34),
        Validator::new("d").voting_power(66),
    ];
    let b10 = block(&trusted, &trusted, 10, T0, b"root-10");
    let b50 = block(&fresh, &fresh, 50, T0 + 40, b"root-50");
    let stored = header(&b10, &b10, 9).consensus_state();
    let now = nanos(T0 + 41);
    let level = |numerator: u64, denominator: u64| {
        client_state(10, TrustThreshold { numerator, denominator })
    };
    let want_of_power = Err(ClientError::InsufficientVotingPower);
    // 34 of 100 sign: more than 33/100, not more than 34/100
    assert_eq!(level(33, 99).verify_header(&header(&b50, &b10, 10), &stored, now), Ok(()));
    assert_eq!(level(339, 1000).verify_header(&header(&b50, &b10, 10), &stored, now), Ok(()));
    assert_eq!(level(34, 100).verify_header(&header(&b50, &b10, 10), &stored, now), want_of_power);
    assert_eq!(level(17, 50).verify_header(&header(&b50, &b10, 10), &stored, now), want_of_power);
    // a level that cannot be evaluated within 64 bits refuses a skipping header
    assert_eq!(
        level(u64::MAX / 3 + 1, u64::MAX).verify_header(&header(&b50, &b10, 10), &stored, now),
        want_of_power
    );
    assert_eq!(
        level(u64::MAX / 2, u64::MAX).verify_header(&header(&b50, &b10, 10), &stored, now),
        want_of_power
    );
    // an adjacent header does not need it
    let b11 = block(&trusted, &trusted, 11, T0 + 1, b"root-11");
    assert_eq!(
        level(u64::MAX / 2, u64::MAX).verify_header(&header(&b11, &b10, 10), &stored, now),
        Ok(())
    );
}

#[test]
fn misbehaviour_header_looks_at_the_trusted_set_first() {
    let vals = validators();
    let others = vec![Validator::new("x").voting_power(100)];
    let b10 = block(&vals, &vals, 10, T0, b"root-10");
    let elsewhere = block(&others, &others, 10, T0, b"root-10");
    let cs = client_state(10, TrustThreshold::one_third());
    let stored = header(&b10, &b10, 9).consensus_state();
    let now = nanos(T0 + 100);
    let mismatch = Err(ClientError::TrustedValidatorSetMismatch);

    // the mismatch alone
    let b20 = block(&vals, &vals, 20, T0 + 10, b"root-20");
    assert_eq!(cs.verify_misbehaviour_header(&header(&b20, &elsewhere, 10), &stored, now), mismatch);
    assert_eq!(cs.verify_misbehaviour_header(&header(&b20, &b10, 10), &stored, now), Ok(()));
    // with a header of another chain
    let foreign = GenHeader::new(&vals)
        .height(20)
        .chain_id("otherchain-0")
        .next_validators(&vals)
        .time(Time::from_unix_timestamp(T0 + 10, 0).unwrap());
    let foreign = LightBlock::new_default_with_header(foreign).generate().unwrap();
    assert_eq!(
        cs.verify_misbehaviour_header(&header(&foreign, &elsewhere, 10), &stored, now),
        mismatch
    );
    assert_eq!(
        cs.verify_misbehaviour_header(&header(&foreign, &b10, 10), &stored, now),
        Err(ClientError::InvalidHeader)
    );
    // with a header that is not above or after the trusted state
    assert_eq!(cs.verify_misbehaviour_header(&header(&b20, &elsewhere, 20), &stored, now), mismatch);
    let stale = block(&vals, &vals, 20, T0, b"root-20");
    assert_eq!(cs.verify_misbehaviour_header(&header(&stale, &elsewhere, 10), &stored, now), mismatch);
    assert_eq!(
        cs.verify_misbehaviour_header(&header(&stale, &b10, 10), &stored, now),
        Err(ClientError::NonMonotonicHeader)
    );
    // with a validator set that the header does not name
    let mut swapped = block(&vals, &vals, 20, T0 + 10, b"root-20");
    swapped.validators = elsewhere.validators.clone();
    assert_eq!(cs.verify_misbehaviour_header(&header(&swapped, &elsewhere, 10), &stored, now), mismatch);
    // an update looks at the placement and the clock before
    assert_eq!(
        cs.verify_header(&header(&foreign, &elsewhere, 10), &stored, now),
        Err(ClientError::InvalidHeader)
    );
    assert_eq!(cs.verify_header(&header(&b20, &elsewhere, 10), &stored, now), mismatch);
    assert_eq!(cs.verify_header(&header(&swapped, &elsewhere, 10), &stored, now), mismatch);
}

#[test]
fn evidence_needs_both_headers_signed() {
    let vals = validators();
    let b10 = block(&vals, &vals, 10, T0, b"root-10");
    let b30 = block(&vals, &vals, 30, T0 + 40, b"root-30");
    let mut unsigned = block(&vals, &vals, 25, T0 + 50, b"root-25");
    unsigned.signed_header.commit.signatures[1] = CommitSig::BlockIdFlagAbsent;
    let ctx = host_with_client(&b10, 10, T0 + 60, TrustThreshold::one_third());
    let evidence = |first: Header, second: Header| MsgUpdateClient {
        client_id: client_id(),
        client_message: ClientMessage::TendermintMisbehaviour(Misbehaviour::new(
            client_id(),
            first,
            second,
        )),
        wire: Vec::new(),
        signer: signer(),
    };
    let want_of_power = client_error(ClientError::InsufficientVotingPower);
    assert_eq!(
        validate(&ctx, &evidence(header(&b30, &b10, 10), header(&unsigned, &b10, 10))),
        want_of_power
    );
    let mut unsigned_above = block(&vals, &vals, 35, T0 + 30, b"root-35");
    unsigned_above.signed_header.commit.signatures[0] = CommitSig::BlockIdFlagAbsent;
    assert_eq!(
        validate(&ctx, &evidence(header(&unsigned_above, &b10, 10), header(&b30, &b10, 10))),
        want_of_power
    );
    let b25 = block(&vals, &vals, 25, T0 + 50, b"root-25");
    assert_eq!(validate(&ctx, &evidence(header(&b30, &b10, 10), header(&b25, &b10, 10))), Ok(()));
}

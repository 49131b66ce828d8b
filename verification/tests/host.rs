use ibc_light_client::any::{AnyClientState, AnyConsensusState};
use ibc_light_client::context::{
    ClientConsensusStatePath, ClientStatePath, ExecutionContext, Signer, ValidationContext,
};
use ibc_light_client::error::{ClientError, ContextError};
use ibc_light_client::event::IbcEvent;
use ibc_light_client::handler::{create_client, update_client, upgrade_client};
use ibc_light_client::height::Height;
use ibc_light_client::identifier::ClientId;
use ibc_light_client::message::{ClientMessage, MsgCreateClient, MsgUpdateClient, MsgUpgradeClient};
use ibc_light_client::mock::{MockClientState, MockConsensusState, MockHeader};
use ibc_light_client::store::MockContext;
use ibc_light_client::timestamp::{Duration, Timestamp};

/// A host that accepts one signer only, and whose store fails after a
/// given number of calls.
struct Fickle {
    inner: MockContext,
    signer: String,
    calls_left: std::cell::Cell<u32>,
}

impl Fickle {
    fn new(calls: u32) -> Fickle {
        Fickle {
            inner: MockContext::new(at(0, 100), Timestamp::from_nanoseconds(50)),
            signer: "relayer".to_string(),
            calls_left: std::cell::Cell::new(calls),
        }
    }

    fn call(&self) -> Result<(), ContextError> {
        let left = self.calls_left.get();
        if left == 0 {
            Err(ContextError::HostFault)
        } else {
            self.calls_left.set(left - 1);
            Ok(())
        }
    }
}

impl ValidationContext for Fickle {
    fn host_timestamp(&self) -> Result<Timestamp, ContextError> {
        self.call()?;
        self.inner.host_timestamp()
    }

    fn host_height(&self) -> Result<Height, ContextError> {
        self.call()?;
        self.inner.host_height()
    }

    fn client_counter(&self) -> Result<u64, ContextError> {
        self.call()?;
        self.inner.client_counter()
    }

    fn validate_message_signer(&self, signer: &Signer) -> Result<(), ContextError> {
        self.call()?;
        if signer.address == self.signer {
            Ok(())
        } else {
            Err(ContextError::InvalidSigner)
        }
    }

    fn client_state(&self, client_id: &ClientId) -> Result<AnyClientState, ContextError> {
        self.call()?;
        self.inner.client_state(client_id)
    }

    fn consensus_state(
        &self,
        path: &ClientConsensusStatePath,
    ) -> Result<AnyConsensusState, ContextError> {
        self.call()?;
        self.inner.consensus_state(path)
    }

    fn consensus_state_heights(&self, client_id: &ClientId) -> Result<Vec<Height>, ContextError> {
        self.call()?;
        self.inner.consensus_state_heights(client_id)
    }

    fn next_consensus_state(
        &self,
        client_id: &ClientId,
        height: &Height,
    ) -> Result<Option<AnyConsensusState>, ContextError> {
        self.call()?;
        self.inner.next_consensus_state(client_id, height)
    }

    fn prev_consensus_state(
        &self,
        client_id: &ClientId,
        height: &Height,
    ) -> Result<Option<AnyConsensusState>, ContextError> {
        self.call()?;
        self.inner.prev_consensus_state(client_id, height)
    }

    fn client_update_meta(
        &self,
        client_id: &ClientId,
        height: Height,
    ) -> Result<(Timestamp, Height), ContextError> {
        self.call()?;
        self.inner.client_update_meta(client_id, height)
    }
}

impl ExecutionContext for Fickle {
    fn store_client_state(
        &mut self,
        path: ClientStatePath,
        client_state: AnyClientState,
    ) -> Result<(), ContextError> {
        self.call()?;
        self.inner.store_client_state(path, client_state)
    }

    fn store_consensus_state(
        &mut self,
        path: ClientConsensusStatePath,
        consensus_state: AnyConsensusState,
    ) -> Result<(), ContextError> {
        self.call()?;
        self.inner.store_consensus_state(path, consensus_state)
    }

    fn delete_consensus_state(&mut self, path: ClientConsensusStatePath) -> Result<(), ContextError> {
        self.call()?;
        self.inner.delete_consensus_state(path)
    }

    fn store_update_meta(
        &mut self,
        client_id: &ClientId,
        height: Height,
        host_timestamp: Timestamp,
        host_height: Height,
    ) -> Result<(), ContextError> {
        self.call()?;
        self.inner.store_update_meta(client_id, height, host_timestamp, host_height)
    }

    fn delete_update_meta(&mut self, client_id: &ClientId, height: Height) -> Result<(), ContextError> {
        self.call()?;
        self.inner.delete_update_meta(client_id, height)
    }

    fn increase_client_counter(&mut self) -> Result<(), ContextError> {
        self.call()?;
        self.inner.increase_client_counter()
    }

    fn emit_ibc_event(&mut self, event: IbcEvent) -> Result<(), ContextError> {
        self.call()?;
        self.inner.emit_ibc_event(event)
    }
}

fn at(r: u64, h: u64) -> Height {
    Height::new(r, h).unwrap()
}

fn header(r: u64, h: u64, t: u64) -> MockHeader {
    MockHeader::new(at(r, h), Timestamp::from_nanoseconds(t))
}

fn create(signer: &str) -> MsgCreateClient {
    MsgCreateClient {
        client_state: AnyClientState::Mock(MockClientState::new(
            header(0, 10, 40),
            Duration::from_nanos(100),
        )),
        consensus_state: AnyConsensusState::Mock(MockConsensusState::new(header(0, 10, 40))),
        signer: Signer { address: signer.to_string() },
    }
}

fn update(signer: &str) -> MsgUpdateClient {
    MsgUpdateClient {
        client_id: ClientId::from_str("9999-mock-0").unwrap(),
        client_message: ClientMessage::MockHeader(header(0, 11, 45)),
        wire: Vec::new(),
        signer: Signer { address: signer.to_string() },
    }
}

fn upgrade(signer: &str) -> MsgUpgradeClient {
    MsgUpgradeClient {
        client_id: ClientId::from_str("9999-mock-0").unwrap(),
        upgraded_client_state: AnyClientState::Mock(MockClientState::new(
            header(1, 1, 48),
            Duration::from_nanos(100),
        )),
        upgraded_consensus_state: AnyConsensusState::Mock(MockConsensusState::new(header(1, 1, 48))),
        upgraded_client_state_wire: Vec::new(),
        upgraded_consensus_state_wire: Vec::new(),
        proof_upgrade_client: Vec::new(),
        proof_upgrade_consensus_state: Vec::new(),
        signer: Signer { address: signer.to_string() },
    }
}

#[test]
fn signer_that_the_host_refuses() {
    let mut host = Fickle::new(1000);
    let refused = Err(ContextError::InvalidSigner);
    assert_eq!(create_client::validate(&host, &create("stranger")), refused);
    assert_eq!(create_client::validate(&host, &create("relayer")), Ok(()));
    assert_eq!(create_client::execute(&mut host, &create("relayer")), Ok(()));
    assert_eq!(update_client::validate(&host, &update("stranger")), refused);
    assert_eq!(update_client::validate(&host, &update("relayer")), Ok(()));
    assert_eq!(upgrade_client::validate(&host, &upgrade("stranger")), refused);
    assert_eq!(upgrade_client::validate(&host, &upgrade("relayer")), Ok(()));
}

#[test]
fn failure_of_the_host_is_passed_on() {
    let fault = Err(ContextError::HostFault);
    // the calls that each handler makes on this host when nothing fails
    let mut sound = Fickle::new(1000);
    assert_eq!(create_client::validate(&sound, &create("relayer")), Ok(()));
    assert_eq!(create_client::execute(&mut sound, &create("relayer")), Ok(()));
    let after_create = 1000 - sound.calls_left.get();
    assert_eq!(update_client::validate(&sound, &update("relayer")), Ok(()));
    assert_eq!(update_client::execute(&mut sound, &update("relayer")), Ok(()));
    assert_eq!(upgrade_client::validate(&sound, &upgrade("relayer")), Ok(()));
    assert_eq!(upgrade_client::execute(&mut sound, &upgrade("relayer")), Ok(()));
    let all = 1000 - sound.calls_left.get();
    assert!(after_create < all);

    // a host that fails at its n-th call fails the handler that makes it
    for calls in 0..all {
        let mut host = Fickle::new(calls);
        let results = [
            create_client::validate(&host, &create("relayer")),
            create_client::execute(&mut host, &create("relayer")),
            update_client::validate(&host, &update("relayer")),
            update_client::execute(&mut host, &update("relayer")),
            upgrade_client::validate(&host, &upgrade("relayer")),
            upgrade_client::execute(&mut host, &upgrade("relayer")),
        ];
        let first_failure = results.iter().position(|r| r.is_err()).unwrap();
        assert_eq!(results[first_failure], fault, "with {} calls", calls);
        for earlier in &results[..first_failure] {
            assert_eq!(*earlier, Ok(()));
        }
    }
    // no handler turns a failure of the host into a client error
    let mut host = Fickle::new(0);
    assert_eq!(update_client::execute(&mut host, &update("relayer")), fault);
    assert_ne!(
        update_client::execute(&mut host, &update("relayer")),
        Err(ContextError::ClientError(ClientError::ClientNotFound))
    );
}

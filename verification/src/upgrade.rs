//! The upgrade of a client to a new revision of its chain: what is checked
//! of the upgraded states, and what the host holds afterwards.

use vstd::prelude::*;
use vstd::utf8::encode_utf8;

use crate::any::{AnyClientState, AnyClientStateView, AnyConsensusState, AnyConsensusStateView};
use crate::bytes::{byte_strings, byte_strings_eq};
use crate::client_state::{ClientState, ClientStateView};
use crate::commitment::{membership_proved, verify_membership};
use crate::context::{
    ClientConsensusStatePath, ClientStatePath, ContextModel, ExecutionContext,
};
use crate::error::{ClientError, ContextError};
use crate::height::Height;
use crate::identifier::{chain_name, ClientId};
use crate::message::MsgUpgradeClient;
use crate::text::{decimal_digits, push_chars, str_chars, string_bytes, strings, u64_to_chars};

verus! {

/// The last part of the key under which a chain commits to the client
/// state of its next revision.
pub const UPGRADED_CLIENT: &'static str = "upgradedClient";

/// The last part of the key under which a chain commits to the consensus
/// state of its next revision.
pub const UPGRADED_CONSENSUS_STATE: &'static str = "upgradedConsState";

/// The key of the leaf of an upgrade: `{last}/{height}/{name}`.
pub open spec fn upgrade_leaf_key(last: Seq<char>, height: u64, name: Seq<char>) -> Seq<char> {
    last + seq!['/'] + decimal_digits(height as nat) + seq!['/'] + name
}

/// The keys under which an upgrade is committed, from the root to the leaf:
/// the parts of the upgrade path, the last of them extended to the key of
/// the leaf. Each key is given in UTF-8.
pub open spec fn upgrade_keys(path: Seq<Seq<char>>, height: u64, name: Seq<char>) -> Seq<Seq<u8>> {
    Seq::new(
        path.len(),
        |i: int|
            if i + 1 < path.len() {
                encode_utf8(path[i])
            } else {
                encode_utf8(upgrade_leaf_key(path[i], height, name))
            },
    )
}

/// Computes the keys under which an upgrade is committed.
pub fn upgrade_key_path(path: &Vec<String>, height: u64, name: &str) -> (r: Vec<Vec<u8>>)
    ensures
        byte_strings(r@) == upgrade_keys(strings(path@), height, name@),
{
    let mut keys: Vec<Vec<u8>> = Vec::new();
    let mut i: usize = 0;
    while i < path.len()
        invariant
            i <= path.len(),
            keys.len() == i,
            forall|j: int|
                0 <= j < i ==> (#[trigger] keys@[j])@ == upgrade_keys(
                    strings(path@),
                    height,
                    name@,
                )[j],
        decreases path.len() - i,
    {
        if i + 1 < path.len() {
            keys.push(string_bytes(path[i].as_str()));
        } else {
            let mut leaf = path[i].clone();
            let mut slash: Vec<char> = Vec::new();
            slash.push('/');
            assert(slash@ =~= seq!['/']);
            push_chars(&mut leaf, &slash);
            push_chars(&mut leaf, &u64_to_chars(height));
            push_chars(&mut leaf, &slash);
            push_chars(&mut leaf, &str_chars(name));
            assert(leaf@ == upgrade_leaf_key(path@[i as int]@, height, name@));
            keys.push(string_bytes(leaf.as_str()));
        }
        i += 1;
    }
    assert(byte_strings(keys@) =~= upgrade_keys(strings(path@), height, name@));
    keys
}

/// The first fault that is found in the upgrade of a Tendermint client
/// before any proof is looked at: upgraded states of another client type; a
/// revision that is not above the client's; a chain of another name; proof
/// specs that differ from the client's; or no upgrade path on the client.
///
/// That the upgraded client's periods are positive need not be checked:
/// it holds of every client state.
pub open spec fn tendermint_upgrade_fault(
    cs: ClientStateView,
    upgraded: AnyClientStateView,
    upgraded_consensus: AnyConsensusStateView,
) -> Option<ClientError> {
    match (upgraded, upgraded_consensus) {
        (AnyClientStateView::Tendermint(new), AnyConsensusStateView::Tendermint(_)) => {
            if new.latest_height.revision_number <= cs.latest_height.revision_number {
                Some(ClientError::LowUpgradeHeight)
            } else if chain_name(new.chain_id) != chain_name(cs.chain_id) {
                Some(ClientError::InvalidClientState)
            } else if new.proof_specs != cs.proof_specs {
                Some(ClientError::InvalidClientState)
            } else if cs.upgrade_path.len() == 0 {
                Some(ClientError::MissingUpgradePath)
            } else {
                None
            }
        },
        _ => Some(ClientError::ClientTypeMismatch),
    }
}

/// Whether the two proofs of an upgrade show that the chain of the client
/// has committed under `root` to the wire forms of the upgraded client
/// state and the upgraded consensus state, each under its key at the
/// client's latest height.
pub open spec fn upgrade_proved(
    cs: ClientStateView,
    root: Seq<u8>,
    client_wire: Seq<u8>,
    consensus_wire: Seq<u8>,
    proof_client: Seq<u8>,
    proof_consensus: Seq<u8>,
) -> bool {
    &&& membership_proved(
        proof_client,
        cs.proof_specs,
        root,
        upgrade_keys(cs.upgrade_path, cs.latest_height.revision_height, "upgradedClient"@),
        client_wire,
    )
    &&& membership_proved(
        proof_consensus,
        cs.proof_specs,
        root,
        upgrade_keys(cs.upgrade_path, cs.latest_height.revision_height, "upgradedConsState"@),
        consensus_wire,
    )
}

/// What proofs amount to for the client: acceptance where they hold, and
/// `InvalidProof` where they do not.
pub open spec fn proofs_outcome(proved: bool) -> Result<(), ClientError> {
    if proved {
        Ok(())
    } else {
        Err(ClientError::InvalidProof)
    }
}

impl ClientState {
    /// Checks the upgrade of this client: the upgraded states against the
    /// client, then the two proofs that the chain has committed to them
    /// under `root`, each over the wire form of its state.
    ///
    /// The upgrade is refused with the first fault that
    /// `tendermint_upgrade_fault` finds. Where there is none, the proofs
    /// decide: the upgrade is accepted exactly where `upgrade_proved`
    /// holds, and refused with `InvalidProof` otherwise.
    pub fn verify_upgrade_client(
        &self,
        upgraded_client_state: &AnyClientState,
        upgraded_consensus_state: &AnyConsensusState,
        upgraded_client_state_wire: &Vec<u8>,
        upgraded_consensus_state_wire: &Vec<u8>,
        proof_upgrade_client: &Vec<u8>,
        proof_upgrade_consensus_state: &Vec<u8>,
        root: &Vec<u8>,
    ) -> (r: Result<(), ClientError>)
        ensures
            tendermint_upgrade_fault(
                self@,
                upgraded_client_state@,
                upgraded_consensus_state@,
            ) matches Some(e) ==> r == Err::<(), ClientError>(e),
            tendermint_upgrade_fault(
                self@,
                upgraded_client_state@,
                upgraded_consensus_state@,
            ).is_none() ==> r == proofs_outcome(
                upgrade_proved(
                    self@,
                    root@,
                    upgraded_client_state_wire@,
                    upgraded_consensus_state_wire@,
                    proof_upgrade_client@,
                    proof_upgrade_consensus_state@,
                ),
            ),
    {
        let upgraded = match (upgraded_client_state, upgraded_consensus_state) {
            (AnyClientState::Tendermint(new), AnyConsensusState::Tendermint(_)) => new,
            _ => {
                return Err(ClientError::ClientTypeMismatch);
            },
        };
        let latest = self.latest_height();
        if upgraded.latest_height().revision_number <= latest.revision_number {
            return Err(ClientError::LowUpgradeHeight);
        }
        if !upgraded.chain_id().same_name(self.chain_id()) {
            return Err(ClientError::InvalidClientState);
        }
        if !byte_strings_eq(upgraded.proof_specs(), self.proof_specs()) {
            return Err(ClientError::InvalidClientState);
        }
        let upgrade_path = self.upgrade_path();
        if upgrade_path.len() == 0 {
            assert(strings(upgrade_path@).len() == 0);
            return Err(ClientError::MissingUpgradePath);
        }
        assert(strings(upgrade_path@).len() != 0);
        let client_keys = upgrade_key_path(
            upgrade_path,
            latest.revision_height,
            UPGRADED_CLIENT,
        );
        let first = verify_membership(
            proof_upgrade_client,
            self.proof_specs(),
            root,
            &client_keys,
            upgraded_client_state_wire,
        );
        first?;
        let consensus_keys = upgrade_key_path(
            upgrade_path,
            latest.revision_height,
            UPGRADED_CONSENSUS_STATE,
        );
        let second = verify_membership(
            proof_upgrade_consensus_state,
            self.proof_specs(),
            root,
            &consensus_keys,
            upgraded_consensus_state_wire,
        );
        match second {
            Ok(()) => Ok(()),
            Err(_) => Err(ClientError::InvalidProof),
        }
    }
}

/// The first fault that is found in the upgrade of a client before any
/// proof is looked at. A Tendermint client is held to
/// `tendermint_upgrade_fault`, and its latest consensus state must be a
/// Tendermint one. A mock client takes mock states of a higher revision.
pub open spec fn upgrade_fault(
    cs: AnyClientStateView,
    latest_consensus: AnyConsensusStateView,
    upgraded: AnyClientStateView,
    upgraded_consensus: AnyConsensusStateView,
) -> Option<ClientError> {
    match (cs, latest_consensus) {
        (
            AnyClientStateView::Tendermint(tm),
            AnyConsensusStateView::Tendermint(_),
        ) => tendermint_upgrade_fault(tm, upgraded, upgraded_consensus),
        (AnyClientStateView::Mock(mock), AnyConsensusStateView::Mock(_)) => match (
            upgraded,
            upgraded_consensus,
        ) {
            (AnyClientStateView::Mock(new), AnyConsensusStateView::Mock(_)) => {
                if new.header.height.revision_number <= mock.header.height.revision_number {
                    Some(ClientError::LowUpgradeHeight)
                } else {
                    None
                }
            },
            _ => Some(ClientError::ClientTypeMismatch),
        },
        _ => Some(ClientError::ClientTypeMismatch),
    }
}

/// What the upgrade of a client comes to where `upgrade_fault` finds no
/// fault: for a Tendermint client the outcome of the two proofs under the
/// root of its latest consensus state, and success for a mock client.
pub open spec fn upgrade_proofs(
    cs: AnyClientStateView,
    latest_consensus: AnyConsensusStateView,
    msg: MsgUpgradeClient,
) -> Result<(), ClientError> {
    match (cs, latest_consensus) {
        (
            AnyClientStateView::Tendermint(tm),
            AnyConsensusStateView::Tendermint(latest),
        ) => proofs_outcome(
            upgrade_proved(
                tm,
                latest.root,
                msg.upgraded_client_state_wire@,
                msg.upgraded_consensus_state_wire@,
                msg.proof_upgrade_client@,
                msg.proof_upgrade_consensus_state@,
            ),
        ),
        _ => Ok(()),
    }
}

/// Checks the upgrade of a client against its state and its latest
/// consensus state.
///
/// The upgrade is refused with the first fault that `upgrade_fault` finds.
/// Where there is none, the result is `upgrade_proofs`: a mock client
/// accepts, and for a Tendermint client the proofs decide.
pub fn verify_upgrade_client(
    client_state: &AnyClientState,
    latest_consensus_state: &AnyConsensusState,
    msg: &MsgUpgradeClient,
) -> (r: Result<(), ClientError>)
    ensures
        upgrade_fault(
            client_state@,
            latest_consensus_state@,
            msg.upgraded_client_state@,
            msg.upgraded_consensus_state@,
        ) matches Some(e) ==> r == Err::<(), ClientError>(e),
        upgrade_fault(
            client_state@,
            latest_consensus_state@,
            msg.upgraded_client_state@,
            msg.upgraded_consensus_state@,
        ).is_none() ==> r == upgrade_proofs(client_state@, latest_consensus_state@, *msg),
{
    match (client_state, latest_consensus_state) {
        (
            AnyClientState::Tendermint(tm),
            AnyConsensusState::Tendermint(latest),
        ) => tm.verify_upgrade_client(
            &msg.upgraded_client_state,
            &msg.upgraded_consensus_state,
            &msg.upgraded_client_state_wire,
            &msg.upgraded_consensus_state_wire,
            &msg.proof_upgrade_client,
            &msg.proof_upgrade_consensus_state,
            &latest.root,
        ),
        (AnyClientState::Mock(mock), AnyConsensusState::Mock(_)) => match (
            &msg.upgraded_client_state,
            &msg.upgraded_consensus_state,
        ) {
            (AnyClientState::Mock(new), AnyConsensusState::Mock(_)) => {
                if new.header.height.revision_number <= mock.header.height.revision_number {
                    Err(ClientError::LowUpgradeHeight)
                } else {
                    Ok(())
                }
            },
            _ => Err(ClientError::ClientTypeMismatch),
        },
        _ => Err(ClientError::ClientTypeMismatch),
    }
}

/// What the host holds after a client was upgraded: the upgraded client
/// state without a frozen height in place of the old one; the upgraded
/// consensus state at the new latest height; and the host time and height
/// of now as the record of its storing.
pub open spec fn upgraded_store(
    m: ContextModel,
    client_id: Seq<char>,
    upgraded: AnyClientStateView,
    upgraded_consensus: AnyConsensusStateView,
) -> ContextModel {
    ContextModel {
        client_states: m.client_states.insert(client_id, upgraded.unfrozen()),
        consensus_states: m.consensus_states.insert(
            (client_id, upgraded.latest_height()),
            upgraded_consensus,
        ),
        update_meta: m.update_meta.insert(
            (client_id, upgraded.latest_height()),
            (m.host_timestamp, m.host_height),
        ),
        ..m
    }
}

/// Stores the states of an upgraded client: see `upgraded_store`. Returns
/// the new latest height.
pub fn update_state_on_upgrade<Ctx: ExecutionContext>(
    ctx: &mut Ctx,
    client_id: &ClientId,
    upgraded_client_state: &AnyClientState,
    upgraded_consensus_state: &AnyConsensusState,
) -> (r: Result<Height, ContextError>)
    requires
        old(ctx).valid(),
    ensures
        final(ctx).valid(),
        final(ctx).model().reliable == old(ctx).model().reliable,
        match r {
            Ok(height) => height == upgraded_client_state@.latest_height() && final(ctx).model()
                == upgraded_store(
                old(ctx).model(),
                client_id@,
                upgraded_client_state@,
                upgraded_consensus_state@,
            ),
            Err(e) => old(ctx).model().fails(e) && final(ctx).model().events
                == old(ctx).model().events,
        },
{
    let latest_height = upgraded_client_state.latest_height();
    let host_timestamp = ctx.host_timestamp()?;
    let host_height = ctx.host_height()?;
    ctx.store_client_state(
        ClientStatePath::new(client_id.clone()),
        upgraded_client_state.unfrozen(),
    )?;
    let path = ClientConsensusStatePath::new(
        client_id.clone(),
        latest_height.revision_number,
        latest_height.revision_height,
    );
    assert(path.key() == (client_id@, latest_height));
    ctx.store_consensus_state(path, upgraded_consensus_state.duplicate())?;
    ctx.store_update_meta(client_id, latest_height, host_timestamp, host_height)?;
    Ok(latest_height)
}

} // verus!

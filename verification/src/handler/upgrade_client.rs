//! The handler of `MsgUpgradeClient`: a client is moved to a new revision
//! of its chain.

use vstd::prelude::*;

use crate::any::{AnyClientStateView, AnyConsensusStateView};
use crate::client::{client_status, status_of};
use crate::context::{
    ClientConsensusStatePath, ContextModel, ExecutionContext, ValidationContext,
};
use crate::error::{client_result, ClientError, ContextError, Status};
use crate::event::{IbcEvent, IbcEventView};
use crate::handler::update_client::host_refusal;
use crate::message::MsgUpgradeClient;
use crate::upgrade::{
    update_state_on_upgrade, upgrade_fault, upgrade_proofs, upgraded_store, verify_upgrade_client,
};

verus! {

/// The first fault that `validate` finds in an upgrade before any proof is
/// looked at: no such client; a client that is not active; or the fault of
/// the upgraded states against the client and its latest consensus state.
pub open spec fn validation_fault(
    m: ContextModel,
    client_id: Seq<char>,
    upgraded: AnyClientStateView,
    upgraded_consensus: AnyConsensusStateView,
) -> Option<ClientError> {
    if !m.client_states.contains_key(client_id) {
        Some(ClientError::ClientNotFound)
    } else {
        let cs = m.client_states[client_id];
        let status = status_of(m, client_id, cs);
        if status != Status::Active {
            Some(ClientError::ClientNotActive { status })
        } else {
            upgrade_fault(
                cs,
                m.consensus_states[(client_id, cs.latest_height())],
                upgraded,
                upgraded_consensus,
            )
        }
    }
}

/// Validates a message that upgrades a client. Nothing is written.
///
/// Unless the host fails or refuses the signer, the message is refused with
/// the first fault that `validation_fault` finds, and where there is none
/// the result is `upgrade_proofs`: a mock client accepts, and for a
/// Tendermint client the proofs under the root of its latest consensus
/// state decide. A message is accepted only from a signer that the host
/// accepts.
pub fn validate<Ctx: ValidationContext>(ctx: &Ctx, msg: &MsgUpgradeClient) -> (r: Result<
    (),
    ContextError,
>)
    requires
        ctx.valid(),
    ensures
        validation_fault(
            ctx.model(),
            msg.client_id@,
            msg.upgraded_client_state@,
            msg.upgraded_consensus_state@,
        ) matches Some(e) ==> r == Err::<(), ContextError>(ContextError::ClientError(e))
            || host_refusal(ctx.model(), msg.signer.address@, r),
        validation_fault(
            ctx.model(),
            msg.client_id@,
            msg.upgraded_client_state@,
            msg.upgraded_consensus_state@,
        ).is_none() ==> host_refusal(ctx.model(), msg.signer.address@, r) || r == client_result(
            upgrade_proofs(
                ctx.model().client_states[msg.client_id@],
                ctx.model().consensus_states[(
                    msg.client_id@,
                    ctx.model().client_states[msg.client_id@].latest_height(),
                )],
                *msg,
            ),
        ),
        r.is_ok() ==> ctx.model().accepted_signers.contains(msg.signer.address@),
{
    ctx.validate_message_signer(&msg.signer)?;
    let old_client_state = ctx.client_state(&msg.client_id)?;
    let status = client_status(ctx, &old_client_state, &msg.client_id)?;
    if !status.is_active() {
        return Err(ContextError::ClientError(ClientError::ClientNotActive { status }));
    }
    let latest = old_client_state.latest_height();
    let old_client_cons_state_path = ClientConsensusStatePath::new(
        msg.client_id.clone(),
        latest.revision_number,
        latest.revision_height,
    );
    assert(old_client_cons_state_path.key() == (msg.client_id@, latest));
    let old_consensus_state = ctx.consensus_state(&old_client_cons_state_path)?;
    match verify_upgrade_client(&old_client_state, &old_consensus_state, msg) {
        Ok(()) => Ok(()),
        Err(e) => Err(ContextError::ClientError(e)),
    }
}

/// The two events of an upgraded client.
pub open spec fn upgrade_events(
    client_id: Seq<char>,
    cs: AnyClientStateView,
    upgraded: AnyClientStateView,
) -> Seq<IbcEventView> {
    seq![
        IbcEventView::ClientMessage,
        IbcEventView::UpgradeClient {
            client_id,
            client_type: cs.client_type(),
            consensus_height: upgraded.latest_height(),
        },
    ]
}

/// What the host holds after `execute` has succeeded on an upgrade of the
/// client with state `cs`: the upgraded states are stored, and two events
/// tell of it.
pub open spec fn executed(
    m: ContextModel,
    client_id: Seq<char>,
    cs: AnyClientStateView,
    upgraded: AnyClientStateView,
    upgraded_consensus: AnyConsensusStateView,
) -> ContextModel {
    let u = upgraded_store(m, client_id, upgraded, upgraded_consensus);
    ContextModel { events: u.events + upgrade_events(client_id, cs, upgraded), ..u }
}

/// Executes a message that upgrades a client.
///
/// Unless the host fails, the message is refused where there is no such
/// client, and succeeds otherwise. On success the host holds what
/// `executed` says. Where the host fails, no event but the one that opens
/// the events of the client module can have been emitted.
pub fn execute<Ctx: ExecutionContext>(ctx: &mut Ctx, msg: &MsgUpgradeClient) -> (r: Result<
    (),
    ContextError,
>)
    requires
        old(ctx).valid(),
    ensures
        final(ctx).valid(),
        final(ctx).model().reliable == old(ctx).model().reliable,
        match r {
            Ok(()) => old(ctx).model().client_states.contains_key(msg.client_id@)
                && final(ctx).model() == executed(
                old(ctx).model(),
                msg.client_id@,
                old(ctx).model().client_states[msg.client_id@],
                msg.upgraded_client_state@,
                msg.upgraded_consensus_state@,
            ),
            Err(e) => (old(ctx).model().fails(e) && old(ctx).model().opened_at_most(
                final(ctx).model(),
            )) || (e == ContextError::ClientError(
                ClientError::ClientNotFound,
            ) && !old(ctx).model().client_states.contains_key(msg.client_id@)
                && final(ctx).model() == old(ctx).model()),
        },
{
    let client_id = &msg.client_id;
    let old_client_state = ctx.client_state(client_id)?;
    let latest_height = update_state_on_upgrade(
        ctx,
        client_id,
        &msg.upgraded_client_state,
        &msg.upgraded_consensus_state,
    )?;
    ctx.emit_ibc_event(IbcEvent::ClientMessage)?;
    let event = IbcEvent::UpgradeClient {
        client_id: client_id.clone(),
        client_type: old_client_state.client_type(),
        consensus_height: latest_height,
    };
    ctx.emit_ibc_event(event)?;
    assert(final(ctx).model().events =~= old(ctx).model().events + upgrade_events(
        client_id@,
        old_client_state@,
        msg.upgraded_client_state@,
    ));
    Ok(())
}

} // verus!

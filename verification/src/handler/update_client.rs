//! The handler of `MsgUpdateClient`: a header to follow, or evidence of
//! misbehaviour.

use vstd::prelude::*;

use crate::any::AnyClientStateView;
use crate::bytes::bytes_clone;
use crate::client::{
    check_for_misbehaviour, client_status, frozen, message_commits, message_fault,
    misbehaviour_found, status_of, update_permitted, update_state, update_state_on_misbehaviour,
    updated, verify_client_message,
};
use crate::context::{
    ClientConsensusStatePath, ContextModel, ExecutionContext, ValidationContext,
};
use crate::error::{ClientError, ContextError, Status};
use crate::event::{IbcEvent, IbcEventView};
use crate::message::{ClientMessageView, MsgUpdateClient};

verus! {

/// The first fault that `validate` finds in a message before any signature
/// is looked at: no such client; a client that is not active and may not
/// be updated as it is; or the fault of the client message.
pub open spec fn validation_fault(m: ContextModel, client_id: Seq<char>, msg: ClientMessageView)
    -> Option<ClientError> {
    if !m.client_states.contains_key(client_id) {
        Some(ClientError::ClientNotFound)
    } else {
        let cs = m.client_states[client_id];
        let status = status_of(m, client_id, cs);
        if !update_permitted(status, cs) {
            Some(ClientError::ClientNotActive { status })
        } else {
            message_fault(m, client_id, cs, msg)
        }
    }
}

/// A failure of the host's own, or the host's refusal of a signer that it
/// does not accept.
pub open spec fn host_refusal(m: ContextModel, signer: Seq<char>, r: Result<(), ContextError>)
    -> bool {
    r matches Err(e) && (m.fails(e) || (e == ContextError::InvalidSigner
        && !m.accepted_signers.contains(signer)))
}

/// Validates a message that updates a client. Nothing is written.
///
/// Unless the host fails or refuses the signer, the message is refused with
/// the first fault that `validation_fault` finds, and where there is none
/// the result is `message_commits`: the checks of the commits decide. A
/// message is accepted only from a signer that the host accepts.
pub fn validate<Ctx: ValidationContext>(ctx: &Ctx, msg: &MsgUpdateClient) -> (r: Result<
    (),
    ContextError,
>)
    requires
        ctx.valid(),
    ensures
        validation_fault(ctx.model(), msg.client_id@, msg.client_message@) matches Some(e)
            ==> r == Err::<(), ContextError>(ContextError::ClientError(e)) || host_refusal(
            ctx.model(),
            msg.signer.address@,
            r,
        ),
        validation_fault(ctx.model(), msg.client_id@, msg.client_message@).is_none() ==> (
        host_refusal(ctx.model(), msg.signer.address@, r) || r == message_commits(
            ctx.model(),
            msg.client_id@,
            ctx.model().client_states[msg.client_id@],
            msg.client_message,
        )),
        r.is_ok() ==> ctx.model().accepted_signers.contains(msg.signer.address@),
{
    ctx.validate_message_signer(&msg.signer)?;
    let client_state = ctx.client_state(&msg.client_id)?;
    let status = client_status(ctx, &client_state, &msg.client_id)?;
    let permitted = match status {
        Status::Active => true,
        Status::Expired => client_state.allow_update_after_expiry(),
        Status::Frozen => client_state.allow_update_after_misbehaviour(),
        Status::Unknown => false,
    };
    if !permitted {
        return Err(ContextError::ClientError(ClientError::ClientNotActive { status }));
    }
    verify_client_message(ctx, &client_state, &msg.client_id, &msg.client_message)
}

/// The two events of a client frozen on evidence.
pub open spec fn misbehaviour_events(client_id: Seq<char>, cs: AnyClientStateView) -> Seq<
    IbcEventView,
> {
    seq![
        IbcEventView::ClientMessage,
        IbcEventView::ClientMisbehaviour { client_id, client_type: cs.client_type() },
    ]
}

/// The two events of a client updated with a header.
pub open spec fn update_events(
    client_id: Seq<char>,
    cs: AnyClientStateView,
    msg: ClientMessageView,
    wire: Seq<u8>,
) -> Seq<IbcEventView> {
    seq![
        IbcEventView::ClientMessage,
        IbcEventView::UpdateClient {
            client_id,
            client_type: cs.client_type(),
            consensus_height: msg.header_facts().height,
            consensus_heights: seq![msg.header_facts().height],
            header: wire,
        },
    ]
}

/// What the host holds after `execute` has succeeded on a message to the
/// client with state `cs`.
///
/// A message that shows misbehaviour freezes the client: two events tell
/// of it, and nothing else changes. A header that is stored already changes
/// nothing and tells of nothing. Any other header is stored after pruning,
/// and two events tell of it.
pub open spec fn executed(
    m: ContextModel,
    client_id: Seq<char>,
    cs: AnyClientStateView,
    msg: ClientMessageView,
    wire: Seq<u8>,
) -> ContextModel {
    if misbehaviour_found(m, client_id, msg) {
        let f = frozen(m, client_id, cs);
        ContextModel { events: f.events + misbehaviour_events(client_id, cs), ..f }
    } else if m.has_state(client_id, msg.header_facts().height) {
        m
    } else {
        let facts = msg.header_facts();
        let u = updated(m, client_id, cs, facts.height, facts.time, facts.consensus_state);
        ContextModel { events: u.events + update_events(client_id, cs, msg, wire), ..u }
    }
}

/// The first fault that `execute` finds in a message: no such client; a
/// message for another client type; evidence that shows no misbehaviour; or
/// a header that conflicts with nothing but is of another revision than the
/// client's latest height.
pub open spec fn execution_fault(m: ContextModel, client_id: Seq<char>, msg: ClientMessageView)
    -> Option<ClientError> {
    if !m.client_states.contains_key(client_id) {
        Some(ClientError::ClientNotFound)
    } else {
        let cs = m.client_states[client_id];
        if cs.client_type() != msg.client_type() {
            Some(ClientError::ClientTypeMismatch)
        } else if misbehaviour_found(m, client_id, msg) {
            None
        } else if !msg.is_header() {
            Some(ClientError::MisbehaviourNotDetected)
        } else if msg.header_facts().height.revision_number
            != cs.latest_height().revision_number {
            Some(ClientError::InvalidHeader)
        } else {
            None
        }
    }
}

/// Executes a message that updates a client.
///
/// Unless the host fails, the message is refused with the fault that
/// `execution_fault` finds, and succeeds where there is none. On success
/// the host holds what `executed` says; where the message is refused for a
/// fault, the host holds what it held. Where the host fails, no event but
/// the one that opens the events of the client module can have been
/// emitted.
pub fn execute<Ctx: ExecutionContext>(ctx: &mut Ctx, msg: &MsgUpdateClient) -> (r: Result<
    (),
    ContextError,
>)
    requires
        old(ctx).valid(),
    ensures
        final(ctx).valid(),
        final(ctx).model().reliable == old(ctx).model().reliable,
        match r {
            Ok(()) => execution_fault(
                old(ctx).model(),
                msg.client_id@,
                msg.client_message@,
            ).is_none() && final(ctx).model() == executed(
                old(ctx).model(),
                msg.client_id@,
                old(ctx).model().client_states[msg.client_id@],
                msg.client_message@,
                msg.wire@,
            ),
            Err(e) => (old(ctx).model().fails(e) && old(ctx).model().opened_at_most(
                final(ctx).model(),
            )) || (e is ClientError && execution_fault(
                old(ctx).model(),
                msg.client_id@,
                msg.client_message@,
            ) == Some(e->ClientError_0) && final(ctx).model() == old(ctx).model()),
        },
{
    let client_id = &msg.client_id;
    let client_state = ctx.client_state(client_id)?;
    let found_misbehaviour = check_for_misbehaviour(
        ctx,
        &client_state,
        client_id,
        &msg.client_message,
    )?;
    if found_misbehaviour {
        update_state_on_misbehaviour(ctx, &client_state, client_id)?;
        ctx.emit_ibc_event(IbcEvent::ClientMessage)?;
        let event = IbcEvent::ClientMisbehaviour {
            client_id: client_id.clone(),
            client_type: client_state.client_type(),
        };
        ctx.emit_ibc_event(event)?;
        assert(final(ctx).model().events =~= old(ctx).model().events + misbehaviour_events(
            client_id@,
            client_state@,
        ));
        return Ok(());
    }
    let (height, time, derived) = match msg.client_message.header_parts() {
        Some(parts) => parts,
        None => {
            return Err(ContextError::ClientError(ClientError::MisbehaviourNotDetected));
        },
    };
    let path = ClientConsensusStatePath::new(
        client_id.clone(),
        height.revision_number,
        height.revision_height,
    );
    assert(path.key() == (client_id@, height));
    match ctx.consensus_state(&path) {
        Ok(_) => {
            if height.revision_number != client_state.latest_height().revision_number {
                return Err(ContextError::ClientError(ClientError::InvalidHeader));
            }
            return Ok(());
        },
        Err(ContextError::HostFault) => {
            return Err(ContextError::HostFault);
        },
        Err(_) => {},
    }
    let consensus_heights = update_state(
        ctx,
        &client_state,
        client_id,
        height,
        time,
        derived,
    )?;
    ctx.emit_ibc_event(IbcEvent::ClientMessage)?;
    let event = IbcEvent::UpdateClient {
        client_id: client_id.clone(),
        client_type: client_state.client_type(),
        consensus_height: height,
        consensus_heights,
        header: bytes_clone(&msg.wire),
    };
    ctx.emit_ibc_event(event)?;
    assert(final(ctx).model().events =~= old(ctx).model().events + update_events(
        client_id@,
        client_state@,
        msg.client_message@,
        msg.wire@,
    ));
    Ok(())
}

} // verus!

//! The handler of `MsgCreateClient`: a new client is set up from a client
//! state and the consensus state at its latest height.

use vstd::prelude::*;

use crate::any::{client_id_of, AnyClientStateView, AnyConsensusStateView};
use crate::context::{
    ClientConsensusStatePath, ClientStatePath, ContextModel, ExecutionContext, ValidationContext,
};
use crate::error::{ClientError, ContextError, Status};
use crate::event::{IbcEvent, IbcEventView};
use crate::handler::update_client::host_refusal;
use crate::message::MsgCreateClient;

verus! {

/// The identifier that the next client of a type gets: the type's name and
/// the number of clients created so far.
pub open spec fn next_client_id(m: ContextModel, cs: AnyClientStateView) -> Seq<char> {
    client_id_of(cs.client_type(), m.client_counter)
}

/// The first fault that `validate` finds in the creation of a client:
/// a consensus state of another client type than the client state; a client
/// state that is frozen; or a client that exists already under the
/// identifier that the new one would get.
pub open spec fn validation_fault(
    m: ContextModel,
    cs: AnyClientStateView,
    consensus: AnyConsensusStateView,
) -> Option<ClientError> {
    if cs.client_type() != consensus.client_type() {
        Some(ClientError::ClientTypeMismatch)
    } else if cs.is_frozen() {
        Some(ClientError::ClientNotActive { status: Status::Frozen })
    } else if m.client_states.contains_key(next_client_id(m, cs)) {
        Some(ClientError::ClientAlreadyExists)
    } else {
        None
    }
}

/// Validates a message that creates a client. Nothing is written.
///
/// Unless the host fails or refuses the signer, the message is refused with
/// the first fault that `validation_fault` finds, and accepted where there
/// is none. A message is accepted only from a signer that the host accepts.
pub fn validate<Ctx: ValidationContext>(ctx: &Ctx, msg: &MsgCreateClient) -> (r: Result<
    (),
    ContextError,
>)
    requires
        ctx.valid(),
    ensures
        validation_fault(ctx.model(), msg.client_state@, msg.consensus_state@) matches Some(e)
            ==> r == Err::<(), ContextError>(ContextError::ClientError(e)) || host_refusal(
            ctx.model(),
            msg.signer.address@,
            r,
        ),
        validation_fault(ctx.model(), msg.client_state@, msg.consensus_state@).is_none()
            ==> r.is_ok() || host_refusal(ctx.model(), msg.signer.address@, r),
        r.is_ok() ==> ctx.model().accepted_signers.contains(msg.signer.address@),
{
    ctx.validate_message_signer(&msg.signer)?;
    let client_type = msg.client_state.client_type();
    if client_type != msg.consensus_state.client_type() {
        return Err(ContextError::ClientError(ClientError::ClientTypeMismatch));
    }
    if msg.client_state.is_frozen() {
        return Err(
            ContextError::ClientError(ClientError::ClientNotActive { status: Status::Frozen }),
        );
    }
    let counter = ctx.client_counter()?;
    let client_id = client_type.client_id(counter);
    match ctx.client_state(&client_id) {
        Ok(_) => Err(ContextError::ClientError(ClientError::ClientAlreadyExists)),
        Err(ContextError::HostFault) => Err(ContextError::HostFault),
        Err(_) => Ok(()),
    }
}

/// The two events of a client created.
pub open spec fn create_events(client_id: Seq<char>, cs: AnyClientStateView) -> Seq<IbcEventView> {
    seq![
        IbcEventView::ClientMessage,
        IbcEventView::CreateClient {
            client_id,
            client_type: cs.client_type(),
            consensus_height: cs.latest_height(),
        },
    ]
}

/// What the host holds after `execute` has succeeded on the creation of a
/// client: under the identifier of the new client, its client state, the
/// consensus state at its latest height, and the host time and height of
/// now as the record of the storing; one client more is counted; and two
/// events tell of it.
pub open spec fn executed(
    m: ContextModel,
    cs: AnyClientStateView,
    consensus: AnyConsensusStateView,
) -> ContextModel {
    let client_id = next_client_id(m, cs);
    ContextModel {
        client_states: m.client_states.insert(client_id, cs),
        consensus_states: m.consensus_states.insert((client_id, cs.latest_height()), consensus),
        update_meta: m.update_meta.insert(
            (client_id, cs.latest_height()),
            (m.host_timestamp, m.host_height),
        ),
        client_counter: (m.client_counter + 1) as u64,
        events: m.events + create_events(client_id, cs),
        ..m
    }
}

/// Executes a message that creates a client.
///
/// The message succeeds unless the host fails; a host that cannot count
/// one more client fails. On success the host holds what `executed` says.
/// Where the host fails, no event but the one that opens the events of the
/// client module can have been emitted.
pub fn execute<Ctx: ExecutionContext>(ctx: &mut Ctx, msg: &MsgCreateClient) -> (r: Result<
    (),
    ContextError,
>)
    requires
        old(ctx).valid(),
    ensures
        final(ctx).valid(),
        final(ctx).model().reliable == old(ctx).model().reliable,
        match r {
            Ok(()) => old(ctx).model().client_counter < u64::MAX && final(ctx).model()
                == executed(old(ctx).model(), msg.client_state@, msg.consensus_state@),
            Err(e) => e == ContextError::HostFault && (!old(ctx).model().reliable
                || old(ctx).model().client_counter == u64::MAX) 
                && old(ctx).model().opened_at_most(final(ctx).model()),
        },
{
    let client_type = msg.client_state.client_type();
    let counter = ctx.client_counter()?;
    let client_id = client_type.client_id(counter);
    let host_timestamp = ctx.host_timestamp()?;
    let host_height = ctx.host_height()?;
    let latest = msg.client_state.latest_height();
    ctx.store_client_state(
        ClientStatePath::new(client_id.clone()),
        msg.client_state.clone(),
    )?;
    let path = ClientConsensusStatePath::new(
        client_id.clone(),
        latest.revision_number,
        latest.revision_height,
    );
    assert(path.key() == (client_id@, latest));
    ctx.store_consensus_state(path, msg.consensus_state.duplicate())?;
    ctx.store_update_meta(&client_id, latest, host_timestamp, host_height)?;
    ctx.increase_client_counter()?;
    ctx.emit_ibc_event(IbcEvent::ClientMessage)?;
    let event = IbcEvent::CreateClient {
        client_id: client_id.clone(),
        client_type,
        consensus_height: latest,
    };
    ctx.emit_ibc_event(event)?;
    assert(final(ctx).model().events =~= old(ctx).model().events + create_events(
        client_id@,
        msg.client_state@,
    ));
    Ok(())
}

} // verus!

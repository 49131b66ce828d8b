//! What every client does, whatever its type: it has a status, it verifies
//! the messages submitted to it, it looks for misbehaviour, and it updates
//! what the host keeps for it.

use vstd::prelude::*;

use crate::any::{AnyClientState, AnyClientStateView, AnyConsensusState, AnyConsensusStateView};
use crate::client_state::{commit_outcome, header_fault};
use crate::consensus_state::ConsensusState;
use crate::context::{
    lemma_oldest_height_unique, ClientConsensusStatePath, ClientStatePath, ContextModel,
    ExecutionContext, ValidationContext,
};
use crate::error::{client_result, ClientError, ContextError, Status};
use crate::height::Height;
use crate::identifier::ClientId;
use crate::message::{ClientMessage, ClientMessageView};
use crate::misbehaviour::{
    evidence_commits, evidence_fault, headers_conflict, trusted_state, trusted_state_fault,
};
use crate::mock::{check_mock_headers, mock_headers_conflict};
use crate::timestamp::{Duration, Timestamp};

verus! {

/// The status of a client. A client with a frozen height is frozen. A
/// client whose consensus state at its latest height is gone, or has
/// reached the age of the trusting period, is expired. Any other client is
/// active.
pub open spec fn status_of(m: ContextModel, client_id: Seq<char>, cs: AnyClientStateView)
    -> Status {
    if cs.is_frozen() {
        Status::Frozen
    } else if !m.has_state(client_id, cs.latest_height()) {
        Status::Expired
    } else if m.host_timestamp.nanos - m.consensus_states[(
        client_id,
        cs.latest_height(),
    )].timestamp().nanos >= cs.trusting_period().nanos {
        Status::Expired
    } else {
        Status::Active
    }
}

/// Whether a client in the given status may be updated: an active client
/// may; an expired or frozen one only where its state allows updates after
/// expiry or after misbehaviour.
pub open spec fn update_permitted(status: Status, cs: AnyClientStateView) -> bool {
    match status {
        Status::Active => true,
        Status::Expired => cs.allow_update_after_expiry(),
        Status::Frozen => cs.allow_update_after_misbehaviour(),
        Status::Unknown => false,
    }
}

/// Whether a header conflicts with what the host holds for the client.
///
/// Where a consensus state is stored at the header's height, the header
/// conflicts if it gives rise to another one. Where none is stored, it
/// conflicts if it is not later in time than the stored state below it, or
/// not earlier than the stored state above it.
pub open spec fn update_conflicts(
    m: ContextModel,
    client_id: Seq<char>,
    height: Height,
    derived: AnyConsensusStateView,
) -> bool {
    if m.has_state(client_id, height) {
        m.consensus_states[(client_id, height)] != derived
    } else {
        ||| (m.prev_state(client_id, height) matches Some(below) && derived.timestamp().nanos
            <= below.timestamp().nanos)
        ||| (m.next_state(client_id, height) matches Some(above) && derived.timestamp().nanos
            >= above.timestamp().nanos)
    }
}

/// Whether a client message shows misbehaviour, given what the host holds.
pub open spec fn misbehaviour_found(m: ContextModel, client_id: Seq<char>, msg: ClientMessageView)
    -> bool {
    match msg {
        ClientMessageView::TendermintMisbehaviour(e) => headers_conflict(e.header1, e.header2),
        ClientMessageView::MockMisbehaviour { header1, header2, .. } => mock_headers_conflict(
            header1,
            header2,
        ),
        _ => update_conflicts(
            m,
            client_id,
            msg.header_facts().height,
            msg.header_facts().consensus_state,
        ),
    }
}

/// Whether the oldest consensus state of a client is due for pruning: it
/// was stored more than the trusting period before the host's current time.
pub open spec fn prune_due(m: ContextModel, client_id: Seq<char>, period: Duration) -> bool {
    match m.oldest_height(client_id) {
        Some(oldest) => m.update_meta.contains_key((client_id, oldest)) && m.update_meta[(
            client_id,
            oldest,
        )].0.nanos + period.nanos < m.host_timestamp.nanos,
        None => false,
    }
}

/// What the host holds after pruning: where the oldest consensus state of
/// the client is due, it is gone together with the record of when it was
/// stored. At most one consensus state is pruned, and it is pruned whether
/// or not the client allows updates after expiry.
pub open spec fn pruned(m: ContextModel, client_id: Seq<char>, period: Duration) -> ContextModel {
    if prune_due(m, client_id, period) {
        let oldest = m.oldest_height(client_id).unwrap();
        ContextModel {
            consensus_states: m.consensus_states.remove((client_id, oldest)),
            update_meta: m.update_meta.remove((client_id, oldest)),
            ..m
        }
    } else {
        m
    }
}

/// What the host holds after a new header was stored: the consensus state
/// that the header gives rise to, at the header's height; the client state
/// with its latest height raised; and the host time and height of now as
/// the record of the storing.
pub open spec fn stored(
    m: ContextModel,
    client_id: Seq<char>,
    cs: AnyClientStateView,
    height: Height,
    time: Timestamp,
    derived: AnyConsensusStateView,
) -> ContextModel {
    ContextModel {
        consensus_states: m.consensus_states.insert((client_id, height), derived),
        client_states: m.client_states.insert(client_id, cs.after_update(height, time)),
        update_meta: m.update_meta.insert((client_id, height), (m.host_timestamp, m.host_height)),
        ..m
    }
}

/// What the host holds after a header was applied that conflicts with
/// nothing. A header whose height is stored already changes nothing. Any
/// other is stored after pruning.
pub open spec fn updated(
    m: ContextModel,
    client_id: Seq<char>,
    cs: AnyClientStateView,
    height: Height,
    time: Timestamp,
    derived: AnyConsensusStateView,
) -> ContextModel {
    if m.has_state(client_id, height) {
        m
    } else {
        stored(pruned(m, client_id, cs.trusting_period()), client_id, cs, height, time, derived)
    }
}

/// What the host holds after a client was frozen: its state bears the
/// host's current height as frozen height.
pub open spec fn frozen(m: ContextModel, client_id: Seq<char>, cs: AnyClientStateView)
    -> ContextModel {
    ContextModel {
        client_states: m.client_states.insert(client_id, cs.frozen_at(m.host_height)),
        ..m
    }
}

/// The status of a client.
pub fn client_status<Ctx: ValidationContext>(
    ctx: &Ctx,
    client_state: &AnyClientState,
    client_id: &ClientId,
) -> (r: Result<Status, ContextError>)
    requires
        ctx.valid(),
    ensures
        match r {
            Ok(status) => status == status_of(ctx.model(), client_id@, client_state@),
            Err(e) => ctx.model().fails(e),
        },
{
    if client_state.is_frozen() {
        return Ok(Status::Frozen);
    }
    let latest = client_state.latest_height();
    let path = ClientConsensusStatePath::new(
        client_id.clone(),
        latest.revision_number,
        latest.revision_height,
    );
    let latest_state = match ctx.consensus_state(&path) {
        Ok(cs) => cs,
        Err(ContextError::HostFault) => {
            return Err(ContextError::HostFault);
        },
        Err(_) => {
            return Ok(Status::Expired);
        },
    };
    let now = ctx.host_timestamp()?;
    if latest_state.timestamp().plus_is_after(client_state.trusting_period(), &now) {
        Ok(Status::Active)
    } else {
        Ok(Status::Expired)
    }
}

/// Reads the consensus state of a Tendermint client at a height.
pub fn tendermint_consensus_state<Ctx: ValidationContext>(
    ctx: &Ctx,
    client_id: &ClientId,
    height: Height,
) -> (r: Result<ConsensusState, ContextError>)
    requires
        ctx.valid(),
    ensures
        match r {
            Ok(cs) => ctx.model().has_state(client_id@, height) && ctx.model().consensus_states[(
                client_id@,
                height,
            )] == AnyConsensusStateView::Tendermint(cs@),
            Err(e) => {
                ||| ctx.model().fails(e)
                ||| (e == ContextError::ClientError(
                    ClientError::ConsensusStateNotFound { height },
                ) && !ctx.model().has_state(client_id@, height))
                ||| (e == ContextError::ClientError(ClientError::ClientTypeMismatch)
                    && ctx.model().has_state(client_id@, height) && ctx.model().consensus_states[(
                    client_id@,
                    height,
                )] is Mock)
            },
        },
{
    let path = ClientConsensusStatePath::new(
        client_id.clone(),
        height.revision_number,
        height.revision_height,
    );
    assert(path.key() == (client_id@, height));
    match ctx.consensus_state(&path) {
        Ok(AnyConsensusState::Tendermint(cs)) => Ok(cs),
        Ok(AnyConsensusState::Mock(_)) => Err(
            ContextError::ClientError(ClientError::ClientTypeMismatch),
        ),
        Err(e) => Err(e),
    }
}

/// The first fault that is found in a client message before any signature
/// is looked at: a message for another client type; for a Tendermint header,
/// a trusted consensus state that is missing or of another type, or a fault
/// of the header; for Tendermint evidence, see `evidence_fault`. A message
/// to a mock client has none.
pub open spec fn message_fault(
    m: ContextModel,
    client_id: Seq<char>,
    cs: AnyClientStateView,
    msg: ClientMessageView,
) -> Option<ClientError> {
    match (cs, msg) {
        (AnyClientStateView::Tendermint(tm), ClientMessageView::TendermintHeader(h)) => {
            if trusted_state_fault(m, client_id, h.trusted_height).is_some() {
                trusted_state_fault(m, client_id, h.trusted_height)
            } else {
                header_fault(
                    tm,
                    h,
                    trusted_state(m, client_id, h.trusted_height),
                    m.host_timestamp,
                )
            }
        },
        (
            AnyClientStateView::Tendermint(tm),
            ClientMessageView::TendermintMisbehaviour(e),
        ) => evidence_fault(m, tm, client_id, e),
        (AnyClientStateView::Mock(_), ClientMessageView::MockHeader(_)) => None,
        (AnyClientStateView::Mock(_), ClientMessageView::MockMisbehaviour { .. }) => None,
        _ => Some(ClientError::ClientTypeMismatch),
    }
}

/// What the verification of a client message comes to where
/// `message_fault` finds no fault: for a Tendermint header the outcome of
/// the checks of its commit, for Tendermint evidence `evidence_commits`,
/// and success for a message to a mock client.
pub open spec fn message_commits(
    m: ContextModel,
    client_id: Seq<char>,
    cs: AnyClientStateView,
    msg: ClientMessage,
) -> Result<(), ContextError> {
    match (cs, msg) {
        (AnyClientStateView::Tendermint(tm), ClientMessage::TendermintHeader(h)) => client_result(
            commit_outcome(tm.trust_level, h),
        ),
        (
            AnyClientStateView::Tendermint(tm),
            ClientMessage::TendermintMisbehaviour(e),
        ) => evidence_commits(m, tm, client_id, e),
        _ => Ok(()),
    }
}

/// Verifies a client message for a client: a header against the consensus
/// state at its trusted height and the host time, evidence header by
/// header. A mock client accepts every message of its own type.
///
/// Unless the host fails, the message is refused with the first fault that
/// `message_fault` finds, and where there is none the result is
/// `message_commits`.
pub fn verify_client_message<Ctx: ValidationContext>(
    ctx: &Ctx,
    client_state: &AnyClientState,
    client_id: &ClientId,
    msg: &ClientMessage,
) -> (r: Result<(), ContextError>)
    requires
        ctx.valid(),
    ensures
        message_fault(ctx.model(), client_id@, client_state@, msg@) matches Some(e) ==> r == Err::<
            (),
            ContextError,
        >(ContextError::ClientError(e)) || (r matches Err(f) && ctx.model().fails(f)),
        message_fault(ctx.model(), client_id@, client_state@, msg@).is_none() ==> (
        r matches Err(f) && ctx.model().fails(f)) || r == message_commits(
            ctx.model(),
            client_id@,
            client_state@,
            *msg,
        ),
{
    match (client_state, msg) {
        (AnyClientState::Tendermint(tm), ClientMessage::TendermintHeader(header)) => {
            let trusted = tendermint_consensus_state(
                ctx,
                client_id,
                header.trusted_height(),
            )?;
            let now = ctx.host_timestamp()?;
            match tm.verify_header(header, &trusted, now) {
                Ok(()) => Ok(()),
                Err(e) => Err(ContextError::ClientError(e)),
            }
        },
        (
            AnyClientState::Tendermint(tm),
            ClientMessage::TendermintMisbehaviour(evidence),
        ) => tm.verify_misbehaviour(ctx, client_id, evidence),
        (AnyClientState::Mock(_), ClientMessage::MockHeader(_)) => Ok(()),
        (AnyClientState::Mock(_), ClientMessage::MockMisbehaviour(_)) => Ok(()),
        _ => Err(ContextError::ClientError(ClientError::ClientTypeMismatch)),
    }
}

/// Whether a header conflicts with what the host holds for a client: see
/// `update_conflicts`.
pub fn check_for_misbehaviour_update_client<Ctx: ValidationContext>(
    ctx: &Ctx,
    client_id: &ClientId,
    height: Height,
    time: Timestamp,
    derived: &AnyConsensusState,
) -> (r: Result<bool, ContextError>)
    requires
        ctx.valid(),
        ctx.model().client_states.contains_key(client_id@),
        time == derived@.timestamp(),
    ensures
        match r {
            Ok(found) => found == update_conflicts(ctx.model(), client_id@, height, derived@),
            Err(e) => ctx.model().fails(e),
        },
{
    let path = ClientConsensusStatePath::new(
        client_id.clone(),
        height.revision_number,
        height.revision_height,
    );
    assert(path.key() == (client_id@, height));
    match ctx.consensus_state(&path) {
        Ok(existing) => {
            return Ok(!existing.same(derived));
        },
        Err(ContextError::HostFault) => {
            return Err(ContextError::HostFault);
        },
        Err(_) => {},
    }
    match ctx.prev_consensus_state(client_id, &height) {
        Ok(Some(below)) => {
            if time.nanos <= below.timestamp().nanos {
                return Ok(true);
            }
        },
        Ok(None) => {},
        Err(_) => {
            return Err(ContextError::HostFault);
        },
    }
    match ctx.next_consensus_state(client_id, &height) {
        Ok(Some(above)) => {
            if time.nanos >= above.timestamp().nanos {
                return Ok(true);
            }
        },
        Ok(None) => {},
        Err(_) => {
            return Err(ContextError::HostFault);
        },
    }
    Ok(false)
}

/// Decides whether a client message shows misbehaviour. A message for
/// another client type is refused.
pub fn check_for_misbehaviour<Ctx: ValidationContext>(
    ctx: &Ctx,
    client_state: &AnyClientState,
    client_id: &ClientId,
    msg: &ClientMessage,
) -> (r: Result<bool, ContextError>)
    requires
        ctx.valid(),
        ctx.model().client_states.contains_key(client_id@),
    ensures
        match r {
            Ok(found) => client_state@.client_type() == msg@.client_type() && found
                == misbehaviour_found(ctx.model(), client_id@, msg@),
            Err(e) => ctx.model().fails(e) || (e == ContextError::ClientError(
                ClientError::ClientTypeMismatch,
            ) && client_state@.client_type() != msg@.client_type()),
        },
{
    match (client_state, msg) {
        (
            AnyClientState::Tendermint(tm),
            ClientMessage::TendermintMisbehaviour(evidence),
        ) => match tm.check_for_misbehaviour_misbehavior(evidence) {
            Ok(found) => Ok(found),
            Err(e) => Err(ContextError::ClientError(e)),
        },
        (AnyClientState::Mock(_), ClientMessage::MockMisbehaviour(evidence)) => Ok(
            check_mock_headers(&evidence.header1, &evidence.header2),
        ),
        (AnyClientState::Tendermint(_), ClientMessage::TendermintHeader(_)) | (
            AnyClientState::Mock(_),
            ClientMessage::MockHeader(_),
        ) => {
            match msg.header_parts() {
                Some((height, time, derived)) => check_for_misbehaviour_update_client(
                    ctx,
                    client_id,
                    height,
                    time,
                    &derived,
                ),
                None => Ok(false),
            }
        },
        _ => Err(ContextError::ClientError(ClientError::ClientTypeMismatch)),
    }
}

/// The lowest of the heights given.
fn lowest(heights: &Vec<Height>) -> (r: Option<Height>)
    ensures
        match r {
            Some(low) => heights@.contains(low) && forall|h: Height| #[trigger]
                heights@.contains(h) ==> low.le(h),
            None => heights@.len() == 0,
        },
{
    if heights.len() == 0 {
        return None;
    }
    let mut low = heights[0];
    let mut i: usize = 1;
    while i < heights.len()
        invariant
            1 <= i <= heights.len(),
            heights@.contains(low),
            forall|j: int| 0 <= j < i ==> low.le(#[trigger] heights@[j]),
        decreases heights.len() - i,
    {
        if heights[i].is_lt(&low) {
            low = heights[i];
        }
        i += 1;
    }
    Some(low)
}

/// Prunes the oldest consensus state of a client, where it is due.
pub fn prune_oldest_consensus_state<Ctx: ExecutionContext>(
    ctx: &mut Ctx,
    client_id: &ClientId,
    trusting_period: Duration,
) -> (r: Result<(), ContextError>)
    requires
        old(ctx).valid(),
        old(ctx).model().client_states.contains_key(client_id@),
    ensures
        final(ctx).valid(),
        final(ctx).model().reliable == old(ctx).model().reliable,
        match r {
            Ok(()) => final(ctx).model() == pruned(old(ctx).model(), client_id@, trusting_period),
            Err(e) => old(ctx).model().fails(e) && final(ctx).model().events
                == old(ctx).model().events,
        },
{
    let heights = ctx.consensus_state_heights(client_id)?;
    let oldest = match lowest(&heights) {
        Some(h) => h,
        None => {
            proof {
                let m = ctx.model();
                assert forall|found: Height| !m.is_oldest_height(client_id@, found) by {
                    if m.is_oldest_height(client_id@, found) {
                        assert(m.has_state(client_id@, found));
                        assert(heights@.contains(found));
                    }
                }
            }
            return Ok(());
        },
    };
    proof {
        let m = ctx.model();
        assert(m.has_state(client_id@, oldest));
        assert forall|other: Height| #[trigger] m.has_state(client_id@, other) implies oldest.le(
            other,
        ) by {
            assert(heights@.contains(other));
        }
        assert(m.is_oldest_height(client_id@, oldest));
        lemma_oldest_height_unique(m, client_id@, oldest, m.oldest_height(client_id@).unwrap());
    }
    let stored_at = match ctx.client_update_meta(client_id, oldest) {
        Ok(meta) => meta.0,
        Err(ContextError::HostFault) => {
            return Err(ContextError::HostFault);
        },
        Err(_) => {
            return Ok(());
        },
    };
    let now = ctx.host_timestamp()?;
    let due = match stored_at.nanos.checked_add(trusting_period.nanos) {
        Some(end) => end < now.nanos,
        None => false,
    };
    if !due {
        return Ok(());
    }
    let path = ClientConsensusStatePath::new(
        client_id.clone(),
        oldest.revision_number,
        oldest.revision_height,
    );
    assert(path.key() == (client_id@, oldest));
    ctx.delete_consensus_state(path)?;
    ctx.delete_update_meta(client_id, oldest)?;
    Ok(())
}

/// Applies a header that conflicts with nothing: see `updated`. The header
/// must be of the revision of the client's latest height. Returns the
/// height of the header.
pub fn update_state<Ctx: ExecutionContext>(
    ctx: &mut Ctx,
    client_state: &AnyClientState,
    client_id: &ClientId,
    height: Height,
    time: Timestamp,
    derived: AnyConsensusState,
) -> (r: Result<Vec<Height>, ContextError>)
    requires
        old(ctx).valid(),
        old(ctx).model().client_states.contains_key(client_id@),
    ensures
        final(ctx).valid(),
        final(ctx).model().reliable == old(ctx).model().reliable,
        match r {
            Ok(heights) => heights@ == seq![height] && height.revision_number
                == client_state@.latest_height().revision_number && final(ctx).model() == updated(
                old(ctx).model(),
                client_id@,
                client_state@,
                height,
                time,
                derived@,
            ),
            Err(e) => (old(ctx).model().fails(e) && final(ctx).model().events
                == old(ctx).model().events) || (e == ContextError::ClientError(
                ClientError::InvalidHeader,
            ) && height.revision_number != client_state@.latest_height().revision_number
                && final(ctx).model() == old(ctx).model()),
        },
{
    if height.revision_number != client_state.latest_height().revision_number {
        return Err(ContextError::ClientError(ClientError::InvalidHeader));
    }
    let path = ClientConsensusStatePath::new(
        client_id.clone(),
        height.revision_number,
        height.revision_height,
    );
    assert(path.key() == (client_id@, height));
    match ctx.consensus_state(&path) {
        Ok(_) => {
            let mut heights: Vec<Height> = Vec::new();
            heights.push(height);
            assert(heights@ =~= seq![height]);
            return Ok(heights);
        },
        Err(ContextError::HostFault) => {
            return Err(ContextError::HostFault);
        },
        Err(_) => {},
    }
    prune_oldest_consensus_state(ctx, client_id, client_state.trusting_period())?;
    let host_timestamp = ctx.host_timestamp()?;
    let host_height = ctx.host_height()?;
    let new_client_state = client_state.after_update(height, time);
    ctx.store_consensus_state(path, derived)?;
    ctx.store_client_state(ClientStatePath::new(client_id.clone()), new_client_state)?;
    ctx.store_update_meta(client_id, height, host_timestamp, host_height)?;
    let mut heights: Vec<Height> = Vec::new();
    heights.push(height);
    assert(heights@ =~= seq![height]);
    Ok(heights)
}

/// Freezes a client at the host's current height.
pub fn update_state_on_misbehaviour<Ctx: ExecutionContext>(
    ctx: &mut Ctx,
    client_state: &AnyClientState,
    client_id: &ClientId,
) -> (r: Result<(), ContextError>)
    requires
        old(ctx).valid(),
    ensures
        final(ctx).valid(),
        final(ctx).model().reliable == old(ctx).model().reliable,
        match r {
            Ok(()) => final(ctx).model() == frozen(old(ctx).model(), client_id@, client_state@),
            Err(e) => old(ctx).model().fails(e) && final(ctx).model().events
                == old(ctx).model().events,
        },
{
    let host_height = ctx.host_height()?;
    let frozen_state = client_state.frozen_at(host_height);
    match ctx.store_client_state(ClientStatePath::new(client_id.clone()), frozen_state) {
        Ok(()) => Ok(()),
        Err(_) => Err(ContextError::HostFault),
    }
}

} // verus!

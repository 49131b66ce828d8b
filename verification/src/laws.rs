//! What holds of the client handlers, stated over what a host holds and
//! proved from the definitions that the handlers' contracts use.

use vstd::prelude::*;

use crate::any::{AnyClientStateView, AnyConsensusStateView};
use crate::client::{misbehaviour_found, pruned};
use crate::client_state::{header_fault, ClientStateView};
use crate::consensus_state::ConsensusStateView;
use crate::context::ContextModel;
use crate::error::{ClientError, Status};
use crate::event::IbcEventView;
use crate::handler::create_client::next_client_id;
use crate::handler::update_client::{executed, execution_fault, validation_fault};
use crate::header::HeaderView;
use crate::height::Height;
use crate::message::ClientMessageView;
use crate::timestamp::Timestamp;

verus! {

/// The place of a height in the order of all heights.
pub open spec fn height_index(h: Height) -> nat {
    (h.revision_number as nat) * 0x1_0000_0000_0000_0000 + (h.revision_height as nat)
}

/// The order of heights is the order of their places.
pub proof fn lemma_height_index_order(a: Height, b: Height)
    ensures
        a.lt(b) <==> height_index(a) < height_index(b),
        a == b <==> height_index(a) == height_index(b),
{
}

/// Among the heights that satisfy `p` there is a lowest, if there is any.
pub proof fn lemma_lowest_exists(p: spec_fn(Height) -> bool, witness: Height) -> (low: Height)
    requires
        p(witness),
    ensures
        p(low),
        forall|other: Height| #[trigger] p(other) ==> low.le(other),
    decreases height_index(witness),
{
    if exists|below: Height| #[trigger] p(below) && below.lt(witness) {
        let below = choose|below: Height| #[trigger] p(below) && below.lt(witness);
        lemma_height_index_order(below, witness);
        lemma_lowest_exists(p, below)
    } else {
        witness
    }
}

/// Among the heights that satisfy `p` there is a highest, if there is any.
pub proof fn lemma_highest_exists(p: spec_fn(Height) -> bool, witness: Height) -> (high: Height)
    requires
        p(witness),
    ensures
        p(high),
        forall|other: Height| #[trigger] p(other) ==> other.le(high),
    decreases 0x1_0000_0000_0000_0000_0000_0000_0000_0000 - height_index(witness),
{
    if exists|above: Height| #[trigger] p(above) && witness.lt(above) {
        let above = choose|above: Height| #[trigger] p(above) && witness.lt(above);
        lemma_height_index_order(witness, above);
        lemma_highest_exists(p, above)
    } else {
        witness
    }
}

/// Where a client has a consensus state below a height, it has a highest
/// one below it: the previous consensus state exists.
pub proof fn lemma_prev_exists(
    m: ContextModel,
    client_id: Seq<char>,
    height: Height,
    witness: Height,
)
    requires
        m.has_state(client_id, witness),
        witness.lt(height),
    ensures
        m.prev_height(client_id, height) matches Some(found) && m.is_prev_height(
            client_id,
            height,
            found,
        ),
{
    let p = |h: Height| m.has_state(client_id, h) && h.lt(height);
    assert(p(witness));
    let high = lemma_highest_exists(p, witness);
    assert(p(high));
    assert forall|other: Height| #[trigger]
        m.has_state(client_id, other) && other.lt(height) implies other.le(high) by {
        assert(p(other));
    }
    assert(m.is_prev_height(client_id, height, high));
}

/// Where a client has a consensus state above a height, it has a lowest
/// one above it: the next consensus state exists.
pub proof fn lemma_next_exists(
    m: ContextModel,
    client_id: Seq<char>,
    height: Height,
    witness: Height,
)
    requires
        m.has_state(client_id, witness),
        height.lt(witness),
    ensures
        m.next_height(client_id, height) matches Some(found) && m.is_next_height(
            client_id,
            height,
            found,
        ),
{
    let p = |h: Height| m.has_state(client_id, h) && height.lt(h);
    assert(p(witness));
    let low = lemma_lowest_exists(p, witness);
    assert(p(low));
    assert forall|other: Height| #[trigger]
        m.has_state(client_id, other) && height.lt(other) implies low.le(other) by {
        assert(p(other));
    }
    assert(m.is_next_height(client_id, height, low));
}

/// Whether the consensus states of a client are later in time the higher
/// they stand.
pub open spec fn times_increase(m: ContextModel, client_id: Seq<char>) -> bool {
    forall|a: Height, b: Height|
        #![trigger m.has_state(client_id, a), m.has_state(client_id, b)]
        m.has_state(client_id, a) && m.has_state(client_id, b) && a.lt(b) ==> m.consensus_states[(
            client_id,
            a,
        )].timestamp().nanos < m.consensus_states[(client_id, b)].timestamp().nanos
}

/// Whether no consensus state of a client stands above the client's latest
/// height.
pub open spec fn heights_bounded(m: ContextModel, client_id: Seq<char>) -> bool {
    m.client_states.contains_key(client_id) && forall|h: Height| #[trigger]
        m.has_state(client_id, h) ==> h.le(m.client_states[client_id].latest_height())
}

/// A client that was created on a host which held no consensus state under
/// its identifier has one consensus state, at its latest height: so its
/// consensus states stand in the order of time, and none stands above the
/// latest height.
pub proof fn law_created_client_in_order(
    m: ContextModel,
    cs: AnyClientStateView,
    consensus: AnyConsensusStateView,
)
    requires
        forall|h: Height| !m.has_state(next_client_id(m, cs), h),
    ensures
        ({
            let after = crate::handler::create_client::executed(m, cs, consensus);
            let client_id = next_client_id(m, cs);
            &&& after.client_states[client_id] == cs
            &&& after.consensus_states[(client_id, cs.latest_height())] == consensus
            &&& times_increase(after, client_id)
            &&& heights_bounded(after, client_id)
        }),
{
    let after = crate::handler::create_client::executed(m, cs, consensus);
    let client_id = next_client_id(m, cs);
    assert forall|h: Height| #[trigger] after.has_state(client_id, h) implies h
        == cs.latest_height() by {
        if h != cs.latest_height() {
            assert(m.has_state(client_id, h));
        }
    }
}

/// After a header was executed that conflicts with nothing, the host holds
/// at the header's height the consensus state that the header gives rise to,
/// and the client's latest height is not below the header's.
pub proof fn law_update_stores_header(
    m: ContextModel,
    client_id: Seq<char>,
    msg: ClientMessageView,
    wire: Seq<u8>,
)
    requires
        heights_bounded(m, client_id),
        msg.is_header(),
        execution_fault(m, client_id, msg).is_none(),
        !misbehaviour_found(m, client_id, msg),
    ensures
        ({
            let after = executed(m, client_id, m.client_states[client_id], msg, wire);
            &&& after.has_state(client_id, msg.header_facts().height)
            &&& after.consensus_states[(client_id, msg.header_facts().height)]
                == msg.header_facts().consensus_state
            &&& msg.header_facts().height.le(after.client_states[client_id].latest_height())
            &&& heights_bounded(after, client_id)
        }),
{
    let cs = m.client_states[client_id];
    let after = executed(m, client_id, cs, msg, wire);
    let height = msg.header_facts().height;
    if m.has_state(client_id, height) {
    } else {
        let pr = pruned(m, client_id, cs.trusting_period());
        assert(forall|h: Height| #[trigger]
            pr.has_state(client_id, h) ==> m.has_state(client_id, h));
        assert forall|h: Height| #[trigger] after.has_state(client_id, h) implies h.le(
            after.client_states[client_id].latest_height(),
        ) by {
            if h != height {
                assert(pr.has_state(client_id, h));
                assert(m.has_state(client_id, h));
            }
        }
    }
}

/// Executing the same header a second time changes nothing: the header
/// conflicts with nothing, is refused for no fault, and leaves what the host
/// holds, its events among it, as it is. No event tells of misbehaviour.
pub proof fn law_replay_changes_nothing(
    m: ContextModel,
    client_id: Seq<char>,
    msg: ClientMessageView,
    wire: Seq<u8>,
)
    requires
        msg.is_header(),
        execution_fault(m, client_id, msg).is_none(),
        !misbehaviour_found(m, client_id, msg),
    ensures
        ({
            let once = executed(m, client_id, m.client_states[client_id], msg, wire);
            &&& execution_fault(once, client_id, msg).is_none()
            &&& !misbehaviour_found(once, client_id, msg)
            &&& executed(once, client_id, once.client_states[client_id], msg, wire) == once
        }),
{
}

/// A header at a height where the host holds another consensus state than
/// the header gives rise to freezes the client. Exactly one event of
/// misbehaviour is emitted, behind the event that opens it, and no
/// consensus state changes.
pub proof fn law_conflict_freezes(
    m: ContextModel,
    client_id: Seq<char>,
    msg: ClientMessageView,
    wire: Seq<u8>,
)
    requires
        m.client_states.contains_key(client_id),
        m.client_states[client_id].client_type() == msg.client_type(),
        msg.is_header(),
        m.has_state(client_id, msg.header_facts().height),
        m.consensus_states[(client_id, msg.header_facts().height)]
            != msg.header_facts().consensus_state,
    ensures
        ({
            let cs = m.client_states[client_id];
            let after = executed(m, client_id, cs, msg, wire);
            &&& execution_fault(m, client_id, msg).is_none()
            &&& after.client_states[client_id].is_frozen()
            &&& after.consensus_states == m.consensus_states
            &&& after.update_meta == m.update_meta
            &&& after.events == m.events + seq![
                IbcEventView::ClientMessage,
                IbcEventView::ClientMisbehaviour { client_id, client_type: cs.client_type() },
            ]
        }),
{
}

/// A header that `header_fault` finds no fault in is later than the trusted
/// consensus state and earlier than the host time plus the clock drift, and
/// the trusted consensus state is younger than the trusting period.
pub proof fn law_faultless_header_in_time(
    cs: ClientStateView,
    h: HeaderView,
    trusted: ConsensusStateView,
    now: Timestamp,
)
    requires
        header_fault(cs, h, trusted, now).is_none(),
    ensures
        trusted.timestamp.nanos < h.time.nanos < now.nanos + cs.max_clock_drift.nanos,
        now.nanos - trusted.timestamp.nanos < cs.trusting_period.nanos,
{
}

/// Where the consensus states of a client are later in time the higher
/// they stand, each is earlier than the next one above it and later than
/// the previous one below it.
pub proof fn law_neighbours_in_time(m: ContextModel, client_id: Seq<char>, height: Height)
    requires
        times_increase(m, client_id),
        m.has_state(client_id, height),
    ensures
        m.next_state(client_id, height) matches Some(above) ==> above.timestamp().nanos
            > m.consensus_states[(client_id, height)].timestamp().nanos,
        m.prev_state(client_id, height) matches Some(below) ==> below.timestamp().nanos
            < m.consensus_states[(client_id, height)].timestamp().nanos,
{
    if m.next_height(client_id, height).is_some() {
        let found = m.next_height(client_id, height).unwrap();
        assert(m.is_next_height(client_id, height, found));
        assert(m.has_state(client_id, found) && m.has_state(client_id, height));
    }
    if m.prev_height(client_id, height).is_some() {
        let found = m.prev_height(client_id, height).unwrap();
        assert(m.is_prev_height(client_id, height, found));
        assert(m.has_state(client_id, found) && m.has_state(client_id, height));
    }
}

/// Executing a message keeps the consensus states of every client in the
/// order of time.
pub proof fn law_times_increase_preserved(
    m: ContextModel,
    client_id: Seq<char>,
    msg: ClientMessageView,
    wire: Seq<u8>,
    any_client: Seq<char>,
)
    requires
        times_increase(m, any_client),
        execution_fault(m, client_id, msg).is_none(),
    ensures
        times_increase(
            executed(m, client_id, m.client_states[client_id], msg, wire),
            any_client,
        ),
{
    let cs = m.client_states[client_id];
    let after = executed(m, client_id, cs, msg, wire);
    if misbehaviour_found(m, client_id, msg) {
        assert(after.consensus_states == m.consensus_states);
        assert forall|a: Height, b: Height|
            #![trigger after.has_state(any_client, a), after.has_state(any_client, b)]
            after.has_state(any_client, a) && after.has_state(any_client, b) && a.lt(
                b,
            ) implies after.consensus_states[(any_client, a)].timestamp().nanos
            < after.consensus_states[(any_client, b)].timestamp().nanos by {
            assert(m.has_state(any_client, a) && m.has_state(any_client, b));
        }
    } else if m.has_state(client_id, msg.header_facts().height) {
    } else {
        let height = msg.header_facts().height;
        let derived = msg.header_facts().consensus_state;
        let pr = pruned(m, client_id, cs.trusting_period());
        assert(forall|c: Seq<char>, h: Height| #[trigger]
            pr.has_state(c, h) ==> m.has_state(c, h) && pr.consensus_states[(c, h)]
                == m.consensus_states[(c, h)]);
        assert forall|a: Height, b: Height|
            #![trigger after.has_state(any_client, a), after.has_state(any_client, b)]
            after.has_state(any_client, a) && after.has_state(any_client, b) && a.lt(
                b,
            ) implies after.consensus_states[(any_client, a)].timestamp().nanos
            < after.consensus_states[(any_client, b)].timestamp().nanos by {
            if any_client != client_id {
                assert(pr.has_state(any_client, a) && pr.has_state(any_client, b));
                assert(m.has_state(any_client, a) && m.has_state(any_client, b));
            } else if a == height {
                // b is stored above the new height: the next state exists
                // and is later than the header, and b is not before it
                assert(pr.has_state(client_id, b));
                assert(m.has_state(client_id, b));
                lemma_next_exists(m, client_id, height, b);
                let n = m.next_height(client_id, height).unwrap();
                assert(m.has_state(client_id, n) && m.has_state(client_id, b));
                assert(n.le(b));
            } else if b == height {
                assert(pr.has_state(client_id, a));
                assert(m.has_state(client_id, a));
                lemma_prev_exists(m, client_id, height, a);
                let p = m.prev_height(client_id, height).unwrap();
                assert(m.has_state(client_id, p) && m.has_state(client_id, a));
                assert(a.le(p));
            } else {
                assert(pr.has_state(client_id, a) && pr.has_state(client_id, b));
                assert(m.has_state(client_id, a) && m.has_state(client_id, b));
            }
        }
    }
}

/// After an upgrade to a higher revision the client is not frozen, its
/// latest height is that of the upgraded client state, the upgraded
/// consensus state is stored there, and still no consensus state stands
/// above the latest height.
pub proof fn law_upgrade_raises_latest_height(
    m: ContextModel,
    client_id: Seq<char>,
    upgraded: AnyClientStateView,
    upgraded_consensus: AnyConsensusStateView,
)
    requires
        heights_bounded(m, client_id),
        m.client_states[client_id].latest_height().revision_number
            < upgraded.latest_height().revision_number,
    ensures
        ({
            let after = crate::handler::upgrade_client::executed(
                m,
                client_id,
                m.client_states[client_id],
                upgraded,
                upgraded_consensus,
            );
            &&& !after.client_states[client_id].is_frozen()
            &&& after.client_states[client_id].latest_height() == upgraded.latest_height()
            &&& after.consensus_states[(client_id, upgraded.latest_height())]
                == upgraded_consensus
            &&& heights_bounded(after, client_id)
        }),
{
    let after = crate::handler::upgrade_client::executed(
        m,
        client_id,
        m.client_states[client_id],
        upgraded,
        upgraded_consensus,
    );
    assert forall|h: Height| #[trigger] after.has_state(client_id, h) implies h.le(
        after.client_states[client_id].latest_height(),
    ) by {
        if h != upgraded.latest_height() {
            assert(m.has_state(client_id, h));
        }
    }
}

/// A frozen client whose state does not allow updates after misbehaviour
/// refuses every update: the fault found is that the client is not active,
/// being frozen.
pub proof fn law_frozen_client_rejects(
    m: ContextModel,
    client_id: Seq<char>,
    msg: ClientMessageView,
)
    requires
        m.client_states.contains_key(client_id),
        m.client_states[client_id].is_frozen(),
        !m.client_states[client_id].allow_update_after_misbehaviour(),
    ensures
        validation_fault(m, client_id, msg) == Some(
            ClientError::ClientNotActive { status: Status::Frozen },
        ),
{
}

/// A client that was frozen by a message stays frozen: whatever message is
/// executed next successfully, the client's state still bears a frozen
/// height.
pub proof fn law_frozen_stays_frozen(
    m: ContextModel,
    client_id: Seq<char>,
    msg: ClientMessageView,
    wire: Seq<u8>,
)
    requires
        m.client_states.contains_key(client_id),
        m.client_states[client_id].is_frozen(),
    ensures
        ({
            let after = executed(m, client_id, m.client_states[client_id], msg, wire);
            after.client_states[client_id].is_frozen()
        }),
{
}

} // verus!

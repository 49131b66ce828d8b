//! A host in memory: a context that keeps everything in lists, for tests
//! and for hosts that need no more.

use vstd::prelude::*;

use crate::any::{AnyClientState, AnyClientStateView, AnyConsensusState, AnyConsensusStateView};
use crate::context::{
    lemma_next_height_unique, lemma_prev_height_unique, ClientConsensusStatePath, ClientStatePath,
    ContextModel, ExecutionContext, Signer, ValidationContext,
};
use crate::error::{ClientError, ContextError};
use crate::event::{IbcEvent, IbcEventView};
use crate::height::Height;
use crate::height_map::HeightMap;
use crate::identifier::ClientId;
use crate::timestamp::Timestamp;

verus! {

/// What the host keeps for one client.
#[derive(Debug)]
pub struct MockClientRecord {
    /// The client state, once it is stored.
    pub client_state: Option<AnyClientState>,
    /// The consensus states of the client, by height.
    pub consensus_states: HeightMap,
}

/// A client identifier with the record kept under it.
#[derive(Debug)]
pub struct ClientEntry {
    pub client_id: ClientId,
    pub record: MockClientRecord,
}

/// The record of when the consensus state of a client at a height was
/// stored.
#[derive(Debug)]
pub struct MetaEntry {
    pub client_id: ClientId,
    pub height: Height,
    pub time: Timestamp,
    pub host_height: Height,
}

/// A host in memory.
#[derive(Debug)]
pub struct MockContext {
    clients: Vec<ClientEntry>,
    metas: Vec<MetaEntry>,
    host_height: Height,
    host_timestamp: Timestamp,
    events: Vec<IbcEvent>,
    client_counter: u64,
}

/// Whether a record is kept under the client identifier.
pub open spec fn has_client(clients: Seq<ClientEntry>, id: Seq<char>) -> bool {
    exists|i: int| 0 <= i < clients.len() && (#[trigger] clients[i]).client_id@ == id
}

/// The place of the record kept under the client identifier.
pub open spec fn client_place(clients: Seq<ClientEntry>, id: Seq<char>) -> int {
    choose|i: int| 0 <= i < clients.len() && (#[trigger] clients[i]).client_id@ == id
}

/// Whether no client identifier occurs twice, and every record's map of
/// consensus states is in order.
pub open spec fn clients_wf(clients: Seq<ClientEntry>) -> bool {
    &&& forall|i: int, j: int|
        0 <= i < j < clients.len() ==> (#[trigger] clients[i]).client_id@
            != (#[trigger] clients[j]).client_id@
    &&& forall|i: int|
        0 <= i < clients.len() ==> (#[trigger] clients[i]).record.consensus_states.wf()
}

/// Whether a record of storing is kept for the client and height.
pub open spec fn has_meta(metas: Seq<MetaEntry>, key: (Seq<char>, Height)) -> bool {
    exists|i: int|
        0 <= i < metas.len() && (#[trigger] metas[i]).client_id@ == key.0 && metas[i].height
            == key.1
}

/// The place of the record of storing for the client and height.
pub open spec fn meta_place(metas: Seq<MetaEntry>, key: (Seq<char>, Height)) -> int {
    choose|i: int|
        0 <= i < metas.len() && (#[trigger] metas[i]).client_id@ == key.0 && metas[i].height
            == key.1
}

/// Whether no client and height occur twice among the records of storing.
pub open spec fn metas_wf(metas: Seq<MetaEntry>) -> bool {
    forall|i: int, j: int|
        0 <= i < j < metas.len() ==> !((#[trigger] metas[i]).client_id@
            == (#[trigger] metas[j]).client_id@ && metas[i].height == metas[j].height)
}

/// The client states that a list of records holds.
pub open spec fn client_states_of(clients: Seq<ClientEntry>) -> Map<Seq<char>, AnyClientStateView> {
    Map::new(
        |id: Seq<char>|
            has_client(clients, id) && clients[client_place(
                clients,
                id,
            )].record.client_state.is_some(),
        |id: Seq<char>| clients[client_place(clients, id)].record.client_state.unwrap()@,
    )
}

/// The consensus states that a list of records holds.
pub open spec fn consensus_states_of(clients: Seq<ClientEntry>) -> Map<
    (Seq<char>, Height),
    AnyConsensusStateView,
> {
    Map::new(
        |k: (Seq<char>, Height)|
            has_client(clients, k.0) && clients[client_place(
                clients,
                k.0,
            )].record.consensus_states@.contains_key(k.1),
        |k: (Seq<char>, Height)| clients[client_place(clients, k.0)].record.consensus_states@[k.1],
    )
}

/// The records of storing that a list holds.
pub open spec fn update_meta_of(metas: Seq<MetaEntry>) -> Map<
    (Seq<char>, Height),
    (Timestamp, Height),
> {
    Map::new(
        |k: (Seq<char>, Height)| has_meta(metas, k),
        |k: (Seq<char>, Height)|
            (metas[meta_place(metas, k)].time, metas[meta_place(metas, k)].host_height),
    )
}

/// The values of a list of events.
pub open spec fn events_of(events: Seq<IbcEvent>) -> Seq<IbcEventView> {
    Seq::new(events.len(), |i: int| events[i]@)
}

/// A record is found at one place only.
pub proof fn lemma_client_place(clients: Seq<ClientEntry>, i: int)
    requires
        clients_wf(clients),
        0 <= i < clients.len(),
    ensures
        has_client(clients, clients[i].client_id@),
        client_place(clients, clients[i].client_id@) == i,
{
    let k = client_place(clients, clients[i].client_id@);
    if k < i {
        assert(clients[k].client_id@ != clients[i].client_id@);
    } else if i < k {
        assert(clients[i].client_id@ != clients[k].client_id@);
    }
}

/// A record of storing is found at one place only.
pub proof fn lemma_meta_place(metas: Seq<MetaEntry>, i: int)
    requires
        metas_wf(metas),
        0 <= i < metas.len(),
    ensures
        has_meta(metas, (metas[i].client_id@, metas[i].height)),
        meta_place(metas, (metas[i].client_id@, metas[i].height)) == i,
{
    let key = (metas[i].client_id@, metas[i].height);
    let k = meta_place(metas, key);
    if k < i {
        assert(!(metas[k].client_id@ == metas[i].client_id@ && metas[k].height
            == metas[i].height));
    } else if i < k {
        assert(!(metas[i].client_id@ == metas[k].client_id@ && metas[i].height
            == metas[k].height));
    }
}

/// Replacing the record at one place, under the same identifier, leaves
/// every other record where and as it was.
proof fn lemma_replace_client(before: Seq<ClientEntry>, after: Seq<ClientEntry>, i: int)
    requires
        clients_wf(before),
        0 <= i < before.len(),
        after.len() == before.len(),
        after[i].client_id@ == before[i].client_id@,
        after[i].record.consensus_states.wf(),
        forall|j: int| 0 <= j < before.len() && j != i ==> after[j] == before[j],
    ensures
        clients_wf(after),
        forall|id: Seq<char>| #[trigger] has_client(after, id) <==> has_client(before, id),
        forall|id: Seq<char>| #[trigger]
            has_client(before, id) ==> client_place(after, id) == client_place(before, id),
{
    assert forall|a: int, b: int| 0 <= a < b < after.len() implies (#[trigger] after[a]).client_id@
        != (#[trigger] after[b]).client_id@ by {
        assert(after[a].client_id@ == before[a].client_id@);
        assert(after[b].client_id@ == before[b].client_id@);
    }
    assert forall|j: int| 0 <= j < after.len() implies (
    #[trigger] after[j]).record.consensus_states.wf() by {
        if j != i {
            assert(after[j] == before[j]);
        }
    }
    assert(clients_wf(after));
    assert forall|id: Seq<char>| #[trigger] has_client(after, id) <==> has_client(before, id) by {
        if has_client(after, id) {
            let k = client_place(after, id);
            assert(before[k].client_id@ == id);
        }
        if has_client(before, id) {
            let k = client_place(before, id);
            assert(after[k].client_id@ == id);
        }
    }
    assert forall|id: Seq<char>| #[trigger] has_client(before, id) implies client_place(after, id)
        == client_place(before, id) by {
        let k = client_place(before, id);
        assert(after[k].client_id@ == id);
        lemma_client_place(after, k);
    }
}

/// Adding a record under a new identifier leaves every other record where
/// and as it was.
proof fn lemma_push_client(before: Seq<ClientEntry>, entry: ClientEntry)
    requires
        clients_wf(before),
        !has_client(before, entry.client_id@),
        entry.record.consensus_states.wf(),
    ensures
        clients_wf(before.push(entry)),
        forall|id: Seq<char>| #[trigger]
            has_client(before.push(entry), id) <==> has_client(before, id) || id
                == entry.client_id@,
        forall|id: Seq<char>| #[trigger]
            has_client(before, id) ==> client_place(before.push(entry), id) == client_place(
                before,
                id,
            ),
        client_place(before.push(entry), entry.client_id@) == before.len(),
{
    let after = before.push(entry);
    assert forall|a: int, b: int| 0 <= a < b < after.len() implies (#[trigger] after[a]).client_id@
        != (#[trigger] after[b]).client_id@ by {
        if b == before.len() {
            assert(before[a].client_id@ != entry.client_id@);
        } else {
            assert(after[a] == before[a] && after[b] == before[b]);
        }
    }
    assert forall|j: int| 0 <= j < after.len() implies (
    #[trigger] after[j]).record.consensus_states.wf() by {
        if j < before.len() {
            assert(after[j] == before[j]);
        }
    }
    assert(clients_wf(after));
    assert forall|id: Seq<char>| #[trigger]
        has_client(after, id) <==> has_client(before, id) || id == entry.client_id@ by {
        if has_client(after, id) {
            let k = client_place(after, id);
            if k < before.len() {
                assert(before[k].client_id@ == id);
            }
        }
        if has_client(before, id) {
            let k = client_place(before, id);
            assert(after[k].client_id@ == id);
        }
        if id == entry.client_id@ {
            assert(after[before.len() as int].client_id@ == id);
        }
    }
    assert forall|id: Seq<char>| #[trigger] has_client(before, id) implies client_place(after, id)
        == client_place(before, id) by {
        let k = client_place(before, id);
        assert(after[k].client_id@ == id);
        lemma_client_place(after, k);
    }
    lemma_client_place(after, before.len() as int);
}

impl MockContext {
    /// What the host holds.
    pub closed spec fn holding(&self) -> ContextModel {
        ContextModel {
            client_states: client_states_of(self.clients@),
            consensus_states: consensus_states_of(self.clients@),
            update_meta: update_meta_of(self.metas@),
            host_timestamp: self.host_timestamp,
            host_height: self.host_height,
            events: events_of(self.events@),
            client_counter: self.client_counter,
            accepted_signers: Set::full(),
            reliable: true,
        }
    }

    /// What holds of the host between any two calls: no client identifier
    /// has two records, every record's consensus states are in order, and
    /// no consensus state has two records of its storing.
    pub closed spec fn in_order(&self) -> bool {
        clients_wf(self.clients@) && metas_wf(self.metas@)
    }

    /// The host in memory never fails of its own, and accepts every signer.
    pub proof fn lemma_reliable(&self)
        ensures
            self.holding().reliable,
            self.holding().accepted_signers == Set::<Seq<char>>::full(),
    {
    }

    /// Whether a record is kept under the client identifier, be it without
    /// a client state.
    pub closed spec fn has_record(&self, id: Seq<char>) -> bool {
        has_client(self.clients@, id)
    }

    /// A host that holds nothing, at the given height and time.
    pub fn new(host_height: Height, host_timestamp: Timestamp) -> (r: MockContext)
        ensures
            r.in_order(),
            r.holding() == (ContextModel {
                client_states: Map::empty(),
                consensus_states: Map::empty(),
                update_meta: Map::empty(),
                host_timestamp,
                host_height,
                events: Seq::empty(),
                client_counter: 0,
                accepted_signers: Set::full(),
                reliable: true,
            }),
    {
        let r = MockContext {
            clients: Vec::new(),
            metas: Vec::new(),
            host_height,
            host_timestamp,
            events: Vec::new(),
            client_counter: 0,
        };
        assert(r.holding().client_states =~= Map::empty());
        assert(r.holding().consensus_states =~= Map::empty());
        assert(r.holding().update_meta =~= Map::empty());
        assert(r.holding().events =~= Seq::empty());
        r
    }

    /// Moves the host to another block.
    pub fn advance(&mut self, host_height: Height, host_timestamp: Timestamp)
        requires
            old(self).in_order(),
        ensures
            final(self).in_order(),
            final(self).holding() == (ContextModel {
                host_timestamp,
                host_height,
                ..old(self).holding()
            }),
    {
        self.host_height = host_height;
        self.host_timestamp = host_timestamp;
    }

    /// The number of events emitted so far.
    pub fn event_count(&self) -> (r: usize)
        ensures
            r == self.holding().events.len(),
    {
        self.events.len()
    }

    /// The event at a place.
    pub fn event(&self, i: usize) -> (r: &IbcEvent)
        requires
            i < self.holding().events.len(),
        ensures
            r@ == self.holding().events[i as int],
    {
        &self.events[i]
    }

    /// The place of the record kept under the client identifier.
    fn find_client(&self, client_id: &ClientId) -> (r: Option<usize>)
        requires
            self.in_order(),
        ensures
            match r {
                Some(i) => i < self.clients.len() && self.clients@[i as int].client_id@
                    == client_id@ && has_client(self.clients@, client_id@) && client_place(
                    self.clients@,
                    client_id@,
                ) == i,
                None => !has_client(self.clients@, client_id@),
            },
    {
        let mut i: usize = 0;
        while i < self.clients.len()
            invariant
                i <= self.clients.len(),
                clients_wf(self.clients@),
                forall|j: int| 0 <= j < i ==> (#[trigger] self.clients@[j]).client_id@ != client_id@,
            decreases self.clients.len() - i,
        {
            if self.clients[i].client_id.same(client_id) {
                proof {
                    lemma_client_place(self.clients@, i as int);
                }
                return Some(i);
            }
            i += 1;
        }
        None
    }

    /// The place of the record of storing for the client and height.
    fn find_meta(&self, client_id: &ClientId, height: &Height) -> (r: Option<usize>)
        requires
            self.in_order(),
        ensures
            match r {
                Some(i) => i < self.metas.len() && self.metas@[i as int].client_id@ == client_id@
                    && self.metas@[i as int].height == *height && has_meta(
                    self.metas@,
                    (client_id@, *height),
                ) && meta_place(self.metas@, (client_id@, *height)) == i,
                None => !has_meta(self.metas@, (client_id@, *height)),
            },
    {
        let mut i: usize = 0;
        while i < self.metas.len()
            invariant
                i <= self.metas.len(),
                metas_wf(self.metas@),
                forall|j: int|
                    0 <= j < i ==> !((#[trigger] self.metas@[j]).client_id@ == client_id@
                        && self.metas@[j].height == *height),
            decreases self.metas.len() - i,
        {
            if self.metas[i].client_id.same(client_id) && self.metas[i].height.revision_number
                == height.revision_number && self.metas[i].height.revision_height
                == height.revision_height {
                proof {
                    lemma_meta_place(self.metas@, i as int);
                }
                return Some(i);
            }
            i += 1;
        }
        None
    }

    /// The record kept under a client identifier.
    pub fn client_record(&self, client_id: &ClientId) -> (r: Option<&MockClientRecord>)
        requires
            self.in_order(),
        ensures
            r.is_some() == self.has_record(client_id@),
            r matches Some(record) ==> {
                &&& record.consensus_states.wf()
                &&& forall|h: Height| #[trigger]
                    record.consensus_states@.contains_key(h) == self.holding().has_state(
                        client_id@,
                        h,
                    )
                &&& forall|h: Height| #[trigger]
                    record.consensus_states@.contains_key(h) ==> record.consensus_states@[h]
                        == self.holding().consensus_states[(client_id@, h)]
                &&& record.client_state.is_some() == self.holding().client_states.contains_key(
                    client_id@,
                )
                &&& record.client_state matches Some(cs) ==> cs@
                    == self.holding().client_states[client_id@]
            },
    {
        match self.find_client(client_id) {
            Some(i) => Some(&self.clients[i].record),
            None => None,
        }
    }
}

impl ValidationContext for MockContext {
    open spec fn valid(&self) -> bool {
        self.in_order()
    }

    open spec fn model(&self) -> ContextModel {
        self.holding()
    }

    fn host_timestamp(&self) -> (r: Result<Timestamp, ContextError>) {
        Ok(self.host_timestamp)
    }

    fn host_height(&self) -> (r: Result<Height, ContextError>) {
        Ok(self.host_height)
    }

    fn client_counter(&self) -> (r: Result<u64, ContextError>) {
        Ok(self.client_counter)
    }

    fn validate_message_signer(&self, signer: &Signer) -> (r: Result<(), ContextError>) {
        Ok(())
    }

    fn client_state(&self, client_id: &ClientId) -> (r: Result<AnyClientState, ContextError>) {
        match self.find_client(client_id) {
            Some(i) => match &self.clients[i].record.client_state {
                Some(cs) => Ok(cs.clone()),
                None => Err(ContextError::ClientError(ClientError::ClientNotFound)),
            },
            None => Err(ContextError::ClientError(ClientError::ClientNotFound)),
        }
    }

    fn consensus_state(&self, path: &ClientConsensusStatePath) -> (r: Result<
        AnyConsensusState,
        ContextError,
    >) {
        let height = Height {
            revision_number: path.revision_number,
            revision_height: path.revision_height,
        };
        let missing = Err(
            ContextError::ClientError(ClientError::ConsensusStateNotFound { height }),
        );
        match self.find_client(&path.client_id) {
            Some(i) => match self.clients[i].record.consensus_states.get(&height) {
                Some(cs) => Ok(cs.duplicate()),
                None => missing,
            },
            None => missing,
        }
    }

    fn consensus_state_heights(&self, client_id: &ClientId) -> (r: Result<
        Vec<Height>,
        ContextError,
    >)
        ensures
            r.is_ok() == self.has_record(client_id@),
            r matches Ok(heights) ==> forall|i: int, j: int|
                0 <= i < j < heights.len() ==> (#[trigger] heights@[i]).lt(#[trigger] heights@[j]),
    {
        match self.find_client(client_id) {
            Some(i) => {
                let heights = self.clients[i].record.consensus_states.heights();
                proof {
                    assert forall|h: Height|
                        heights@.contains(h) <==> #[trigger] self.model().has_state(
                            client_id@,
                            h,
                        ) by {
                        assert(heights@.contains(h)
                            <==> self.clients@[i as int].record.consensus_states@.contains_key(h));
                    }
                }
                Ok(heights)
            },
            None => Err(ContextError::ClientError(ClientError::ClientNotFound)),
        }
    }

    fn next_consensus_state(&self, client_id: &ClientId, height: &Height) -> (r: Result<
        Option<AnyConsensusState>,
        ContextError,
    >)
        ensures
            r.is_ok() == self.has_record(client_id@),
    {
        let i = match self.find_client(client_id) {
            Some(i) => i,
            None => {
                return Err(ContextError::ClientError(ClientError::ClientNotFound));
            },
        };
        let ghost m = self.model();
        let ghost states = self.clients@[i as int].record.consensus_states@;
        assert(forall|h: Height| #[trigger]
            m.has_state(client_id@, h) <==> states.contains_key(h));
        match self.clients[i].record.consensus_states.next(height) {
            Some(entry) => {
                proof {
                    assert(m.has_state(client_id@, entry.height));
                    assert forall|other: Height| #[trigger]
                        m.has_state(client_id@, other) && height.lt(
                            other,
                        ) implies entry.height.le(other) by {
                        assert(states.contains_key(other));
                    }
                    assert(m.is_next_height(client_id@, *height, entry.height));
                    lemma_next_height_unique(
                        m,
                        client_id@,
                        *height,
                        entry.height,
                        m.next_height(client_id@, *height).unwrap(),
                    );
                }
                Ok(Some(entry.state.duplicate()))
            },
            None => {
                proof {
                    assert forall|found: Height| !m.is_next_height(
                        client_id@,
                        *height,
                        found,
                    ) by {
                        if m.is_next_height(client_id@, *height, found) {
                            assert(m.has_state(client_id@, found));
                            assert(states.contains_key(found));
                        }
                    }
                }
                Ok(None)
            },
        }
    }

    fn prev_consensus_state(&self, client_id: &ClientId, height: &Height) -> (r: Result<
        Option<AnyConsensusState>,
        ContextError,
    >)
        ensures
            r.is_ok() == self.has_record(client_id@),
    {
        let i = match self.find_client(client_id) {
            Some(i) => i,
            None => {
                return Err(ContextError::ClientError(ClientError::ClientNotFound));
            },
        };
        let ghost m = self.model();
        let ghost states = self.clients@[i as int].record.consensus_states@;
        assert(forall|h: Height| #[trigger]
            m.has_state(client_id@, h) <==> states.contains_key(h));
        match self.clients[i].record.consensus_states.prev(height) {
            Some(entry) => {
                proof {
                    assert(m.has_state(client_id@, entry.height));
                    assert forall|other: Height| #[trigger]
                        m.has_state(client_id@, other) && other.lt(*height) implies other.le(
                        entry.height,
                    ) by {
                        assert(states.contains_key(other));
                    }
                    assert(m.is_prev_height(client_id@, *height, entry.height));
                    lemma_prev_height_unique(
                        m,
                        client_id@,
                        *height,
                        entry.height,
                        m.prev_height(client_id@, *height).unwrap(),
                    );
                }
                Ok(Some(entry.state.duplicate()))
            },
            None => {
                proof {
                    assert forall|found: Height| !m.is_prev_height(
                        client_id@,
                        *height,
                        found,
                    ) by {
                        if m.is_prev_height(client_id@, *height, found) {
                            assert(m.has_state(client_id@, found));
                            assert(states.contains_key(found));
                        }
                    }
                }
                Ok(None)
            },
        }
    }

    fn client_update_meta(&self, client_id: &ClientId, height: Height) -> (r: Result<
        (Timestamp, Height),
        ContextError,
    >) {
        match self.find_meta(client_id, &height) {
            Some(i) => Ok((self.metas[i].time, self.metas[i].host_height)),
            None => Err(ContextError::ClientError(ClientError::ProcessedTimeNotFound { height })),
        }
    }
}

impl MockContext {
    /// The place of the record kept under the client identifier; a record
    /// without client state and consensus states is added where there is
    /// none. What the host holds does not change.
    fn record_place(&mut self, client_id: &ClientId) -> (r: usize)
        requires
            old(self).in_order(),
        ensures
            final(self).in_order(),
            final(self).holding() == old(self).holding(),
            r < final(self).clients.len(),
            final(self).clients@[r as int].client_id@ == client_id@,
            client_place(final(self).clients@, client_id@) == r,
            has_client(final(self).clients@, client_id@),
            final(self).metas@ == old(self).metas@,
    {
        match self.find_client(client_id) {
            Some(i) => i,
            None => {
                let entry = ClientEntry {
                    client_id: client_id.clone(),
                    record: MockClientRecord {
                        client_state: None,
                        consensus_states: HeightMap::new(),
                    },
                };
                proof {
                    lemma_push_client(self.clients@, entry);
                }
                let ghost before = self.clients@;
                self.clients.push(entry);
                proof {
                    let after = self.clients@;
                    assert(after == before.push(entry));
                    assert(client_states_of(after) =~= client_states_of(before));
                    assert(consensus_states_of(after) =~= consensus_states_of(before));
                }
                self.clients.len() - 1
            },
        }
    }
}

impl ExecutionContext for MockContext {
    fn store_client_state(&mut self, path: ClientStatePath, client_state: AnyClientState) -> (r:
        Result<(), ContextError>) {
        let i = self.record_place(&path.client_id);
        let ghost before = self.clients@;
        let ghost id = path.client_id@;
        let ghost value = client_state@;
        let mut entry = self.clients.remove(i);
        entry.record.client_state = Some(client_state);
        self.clients.insert(i, entry);
        proof {
            let after = self.clients@;
            assert(after.len() == before.len());
            assert(forall|j: int| 0 <= j < before.len() && j != i ==> after[j] == before[j]);
            assert(after[i as int].record.consensus_states
                == before[i as int].record.consensus_states);
            lemma_replace_client(before, after, i as int);
            assert(client_states_of(after) =~= client_states_of(before).insert(id, value));
            assert(consensus_states_of(after) =~= consensus_states_of(before));
        }
        Ok(())
    }

    fn store_consensus_state(
        &mut self,
        path: ClientConsensusStatePath,
        consensus_state: AnyConsensusState,
    ) -> (r: Result<(), ContextError>) {
        let i = self.record_place(&path.client_id);
        let height = Height {
            revision_number: path.revision_number,
            revision_height: path.revision_height,
        };
        let ghost before = self.clients@;
        let ghost id = path.client_id@;
        let ghost value = consensus_state@;
        let mut entry = self.clients.remove(i);
        entry.record.consensus_states.insert(height, consensus_state);
        self.clients.insert(i, entry);
        proof {
            let after = self.clients@;
            assert(after.len() == before.len());
            assert(forall|j: int| 0 <= j < before.len() && j != i ==> after[j] == before[j]);
            assert(after[i as int].record.client_state == before[i as int].record.client_state);
            lemma_replace_client(before, after, i as int);
            assert(client_states_of(after) =~= client_states_of(before));
            assert(consensus_states_of(after) =~= consensus_states_of(before).insert(
                (id, height),
                value,
            ));
        }
        Ok(())
    }

    fn delete_consensus_state(&mut self, path: ClientConsensusStatePath) -> (r: Result<
        (),
        ContextError,
    >) {
        let i = self.record_place(&path.client_id);
        let height = Height {
            revision_number: path.revision_number,
            revision_height: path.revision_height,
        };
        let ghost before = self.clients@;
        let ghost id = path.client_id@;
        let mut entry = self.clients.remove(i);
        entry.record.consensus_states.remove(&height);
        self.clients.insert(i, entry);
        proof {
            let after = self.clients@;
            assert(after.len() == before.len());
            assert(forall|j: int| 0 <= j < before.len() && j != i ==> after[j] == before[j]);
            assert(after[i as int].record.client_state == before[i as int].record.client_state);
            lemma_replace_client(before, after, i as int);
            assert(client_states_of(after) =~= client_states_of(before));
            assert(consensus_states_of(after) =~= consensus_states_of(before).remove(
                (id, height),
            ));
        }
        Ok(())
    }

    fn store_update_meta(
        &mut self,
        client_id: &ClientId,
        height: Height,
        host_timestamp: Timestamp,
        host_height: Height,
    ) -> (r: Result<(), ContextError>) {
        let ghost before = self.metas@;
        let ghost key = (client_id@, height);
        let entry = MetaEntry {
            client_id: client_id.clone(),
            height,
            time: host_timestamp,
            host_height,
        };
        match self.find_meta(client_id, &height) {
            Some(i) => {
                self.metas.remove(i);
                self.metas.insert(i, entry);
                proof {
                    let after = self.metas@;
                    assert(after.len() == before.len());
                    assert(forall|j: int|
                        0 <= j < before.len() && j != i ==> after[j] == before[j]);
                    assert forall|a: int, b: int| 0 <= a < b < after.len() implies !((
                    #[trigger] after[a]).client_id@ == (#[trigger] after[b]).client_id@
                        && after[a].height == after[b].height) by {
                        assert(after[a].client_id@ == before[a].client_id@ && after[a].height
                            == before[a].height);
                        assert(after[b].client_id@ == before[b].client_id@ && after[b].height
                            == before[b].height);
                    }
                    assert forall|k: (Seq<char>, Height)| #[trigger]
                        has_meta(after, k) <==> has_meta(before, k) by {
                        if has_meta(after, k) {
                            let p = meta_place(after, k);
                            assert(before[p].client_id@ == k.0 && before[p].height == k.1);
                        }
                        if has_meta(before, k) {
                            let p = meta_place(before, k);
                            assert(after[p].client_id@ == k.0 && after[p].height == k.1);
                        }
                    }
                    assert forall|k: (Seq<char>, Height)| #[trigger]
                        has_meta(after, k) implies update_meta_of(after)[k] == update_meta_of(
                        before,
                    ).insert(key, (host_timestamp, host_height))[k] by {
                        let p = meta_place(before, k);
                        assert(after[p].client_id@ == k.0 && after[p].height == k.1);
                        lemma_meta_place(after, p);
                        lemma_meta_place(before, p);
                    }
                    assert(update_meta_of(after) =~= update_meta_of(before).insert(
                        key,
                        (host_timestamp, host_height),
                    ));
                }
            },
            None => {
                self.metas.push(entry);
                proof {
                    let after = self.metas@;
                    assert(after == before.push(entry));
                    assert forall|a: int, b: int| 0 <= a < b < after.len() implies !((
                    #[trigger] after[a]).client_id@ == (#[trigger] after[b]).client_id@
                        && after[a].height == after[b].height) by {
                        if b == before.len() {
                            assert(before[a] == after[a]);
                        } else {
                            assert(before[a] == after[a] && before[b] == after[b]);
                        }
                    }
                    lemma_meta_place(after, before.len() as int);
                    assert forall|k: (Seq<char>, Height)| #[trigger]
                        has_meta(after, k) <==> has_meta(before, k) || k == key by {
                        if has_meta(after, k) {
                            let p = meta_place(after, k);
                            if p < before.len() {
                                assert(before[p].client_id@ == k.0 && before[p].height == k.1);
                            }
                        }
                        if has_meta(before, k) {
                            let p = meta_place(before, k);
                            assert(after[p].client_id@ == k.0 && after[p].height == k.1);
                        }
                    }
                    assert forall|k: (Seq<char>, Height)| #[trigger]
                        has_meta(after, k) implies update_meta_of(after)[k] == update_meta_of(
                        before,
                    ).insert(key, (host_timestamp, host_height))[k] by {
                        if k != key {
                            let p = meta_place(before, k);
                            assert(after[p] == before[p]);
                            lemma_meta_place(after, p);
                        }
                    }
                    assert(update_meta_of(after) =~= update_meta_of(before).insert(
                        key,
                        (host_timestamp, host_height),
                    ));
                }
            },
        }
        Ok(())
    }

    fn delete_update_meta(&mut self, client_id: &ClientId, height: Height) -> (r: Result<
        (),
        ContextError,
    >) {
        let ghost before = self.metas@;
        let ghost key = (client_id@, height);
        match self.find_meta(client_id, &height) {
            Some(i) => {
                self.metas.remove(i);
                proof {
                    let after = self.metas@;
                    assert forall|a: int, b: int| 0 <= a < b < after.len() implies !((
                    #[trigger] after[a]).client_id@ == (#[trigger] after[b]).client_id@
                        && after[a].height == after[b].height) by {
                        let x = if a < i {
                            a
                        } else {
                            a + 1
                        };
                        let y = if b < i {
                            b
                        } else {
                            b + 1
                        };
                        assert(after[a] == before[x] && after[b] == before[y]);
                    }
                    assert forall|k: (Seq<char>, Height)| #[trigger]
                        has_meta(after, k) <==> has_meta(before, k) && k != key by {
                        if has_meta(after, k) {
                            let p = meta_place(after, k);
                            let x = if p < i {
                                p
                            } else {
                                p + 1
                            };
                            assert(before[x] == after[p]);
                            lemma_meta_place(before, x);
                        }
                        if has_meta(before, k) && k != key {
                            let p = meta_place(before, k);
                            let x = if p < i {
                                p
                            } else {
                                p - 1
                            };
                            assert(after[x] == before[p]);
                        }
                    }
                    assert forall|k: (Seq<char>, Height)| #[trigger]
                        has_meta(after, k) implies update_meta_of(after)[k] == update_meta_of(
                        before,
                    ).remove(key)[k] by {
                        let p = meta_place(after, k);
                        lemma_meta_place(after, p);
                        let x = if p < i {
                            p
                        } else {
                            p + 1
                        };
                        assert(before[x] == after[p]);
                        lemma_meta_place(before, x);
                    }
                    assert(update_meta_of(after) =~= update_meta_of(before).remove(key));
                }
            },
            None => {
                assert(update_meta_of(before) =~= update_meta_of(before).remove(key));
            },
        }
        Ok(())
    }

    fn increase_client_counter(&mut self) -> (r: Result<(), ContextError>) {
        if self.client_counter < u64::MAX {
            self.client_counter = self.client_counter + 1;
            Ok(())
        } else {
            Err(ContextError::HostFault)
        }
    }

    fn emit_ibc_event(&mut self, event: IbcEvent) -> (r: Result<(), ContextError>) {
        let ghost before = self.events@;
        let ghost value = event@;
        self.events.push(event);
        assert(events_of(self.events@) =~= events_of(before).push(value));
        Ok(())
    }
}

} // verus!

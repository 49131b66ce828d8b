//! Classes of non-fungible tokens and the paths they have travelled.
//!
//! A class that crosses a channel is prefixed with the port and channel it
//! arrived on: `{port}/{channel}/.../{base class}`. The prefixes trace the
//! class back to the chain it came from.

use vstd::prelude::*;
use vstd::std_specs::cmp::PartialEqSpecImpl;
use vstd::std_specs::convert::FromSpecImpl;
use vstd::string::StringExecFns;

use crate::identifier::{
    identifier_fault, valid_channel_id, valid_port_id, ChannelId, IdentifierError, PortId,
};
use crate::text::{
    blank, chars_of, chars_to_string, is_blank, is_clean, join, lemma_join_split,
    lemma_split_join, lemma_split_nonempty, split, split_chars, str_chars,
};

verus! {

/// Why a string is no class identifier, trace or class URI.
#[derive(Clone, Copy, Debug, PartialEq, Eq, Structural, Hash)]
pub enum NftTransferError {
    /// The base class identifier is empty or blank.
    EmptyBaseClassId,
    /// A trace has an odd number of parts.
    InvalidTraceLength { len: u64 },
    /// The port of the prefix at `pos`, counted from the base class, is no
    /// port identifier.
    InvalidTracePortId { pos: u64, validation_error: IdentifierError },
    /// The channel of the prefix at `pos`, counted from the base class, is
    /// no channel identifier.
    InvalidTraceChannelId { pos: u64, validation_error: IdentifierError },
    /// The string is no URI.
    InvalidUri,
}

/// The identifier of a class on the chain where it was made. It is never
/// blank.
#[derive(Debug)]
pub struct ClassId {
    id: String,
}

impl View for ClassId {
    type V = Seq<char>;

    closed spec fn view(&self) -> Seq<char> {
        self.id@
    }
}

impl ClassId {
    #[verifier::type_invariant]
    spec fn well_formed(self) -> bool {
        !is_blank(self.id@)
    }

    /// Reads a class identifier: any string that is not blank.
    pub fn from_str(class_id: &str) -> (r: Result<ClassId, NftTransferError>)
        ensures
            is_blank(class_id@) ==> r == Err::<ClassId, NftTransferError>(
                NftTransferError::EmptyBaseClassId,
            ),
            !is_blank(class_id@) ==> r.is_ok() && r.unwrap()@ == class_id@,
    {
        let v = str_chars(class_id);
        assert(v@.subrange(0, v.len() as int) =~= class_id@);
        ClassId::from_chars(&v)
    }

    /// Reads a class identifier from its characters.
    pub fn from_chars(v: &Vec<char>) -> (r: Result<ClassId, NftTransferError>)
        ensures
            is_blank(v@) ==> r == Err::<ClassId, NftTransferError>(
                NftTransferError::EmptyBaseClassId,
            ),
            !is_blank(v@) ==> r.is_ok() && r.unwrap()@ == v@,
    {
        assert(v@.subrange(0, v.len() as int) =~= v@);
        if blank(v, 0, v.len()) {
            Err(NftTransferError::EmptyBaseClassId)
        } else {
            Ok(ClassId { id: chars_to_string(v, 0, v.len()) })
        }
    }

    /// The identifier as a string; it is not blank.
    pub fn as_ref(&self) -> (r: &str)
        ensures
            r@ == self@,
            !is_blank(self@),
    {
        proof {
            use_type_invariant(self);
        }
        self.id.as_str()
    }

    pub fn to_string(&self) -> (r: String)
        ensures
            r@ == self@,
    {
        self.id.clone()
    }

    pub fn same(&self, other: &ClassId) -> (r: bool)
        ensures
            r == (self@ == other@),
    {
        self.id == other.id
    }
}

impl Clone for ClassId {
    fn clone(&self) -> (r: ClassId)
        ensures
            r@ == self@,
    {
        proof {
            use_type_invariant(self);
        }
        ClassId { id: self.id.clone() }
    }
}

impl PartialEq for ClassId {
    fn eq(&self, other: &ClassId) -> (r: bool) {
        self.id == other.id
    }
}

impl PartialEqSpecImpl for ClassId {
    open spec fn obeys_eq_spec() -> bool {
        true
    }

    open spec fn eq_spec(&self, other: &ClassId) -> bool {
        self@ == other@
    }
}

/// One step of a trace: the port and channel that a class arrived on.
#[derive(Debug)]
pub struct TracePrefix {
    port_id: PortId,
    channel_id: ChannelId,
}

/// The mathematical value of a trace prefix.
pub struct TracePrefixView {
    pub port_id: Seq<char>,
    pub channel_id: Seq<char>,
}

impl View for TracePrefix {
    type V = TracePrefixView;

    closed spec fn view(&self) -> TracePrefixView {
        TracePrefixView { port_id: self.port_id@, channel_id: self.channel_id@ }
    }
}

/// A prefix as it is written: `{port}/{channel}`.
pub open spec fn prefix_string(p: TracePrefixView) -> Seq<char> {
    p.port_id + seq!['/'] + p.channel_id
}

impl TracePrefix {
    pub fn new(port_id: PortId, channel_id: ChannelId) -> (r: TracePrefix)
        ensures
            r@ == (TracePrefixView { port_id: port_id@, channel_id: channel_id@ }),
    {
        TracePrefix { port_id, channel_id }
    }

    pub fn same(&self, other: &TracePrefix) -> (r: bool)
        ensures
            r == (self@ == other@),
    {
        self.port_id.same(&other.port_id) && self.channel_id.same(&other.channel_id)
    }

    pub fn to_string(&self) -> (r: String)
        ensures
            r@ == prefix_string(self@),
    {
        let mut out = String::new();
        out.append(self.port_id.as_str());
        out.append("/");
        out.append(self.channel_id.as_str());
        proof {
            reveal_strlit("/");
            assert("/"@ =~= seq!['/']);
            assert(out@ =~= prefix_string(self@));
        }
        out
    }
}

impl Clone for TracePrefix {
    fn clone(&self) -> (r: TracePrefix)
        ensures
            r@ == self@,
    {
        TracePrefix { port_id: self.port_id.clone(), channel_id: self.channel_id.clone() }
    }
}

impl PartialEq for TracePrefix {
    fn eq(&self, other: &TracePrefix) -> (r: bool) {
        self.port_id.same(&other.port_id) && self.channel_id.same(&other.channel_id)
    }
}

impl PartialEqSpecImpl for TracePrefix {
    open spec fn obeys_eq_spec() -> bool {
        true
    }

    open spec fn eq_spec(&self, other: &TracePrefix) -> bool {
        self@ == other@
    }
}

/// The path that a class has travelled. The prefix of the channel it
/// crossed last stands last in the list and is written first.
#[derive(Debug)]
pub struct TracePath {
    prefixes: Vec<TracePrefix>,
}

/// The values of a list of prefixes.
pub open spec fn prefixes_of(v: Seq<TracePrefix>) -> Seq<TracePrefixView> {
    Seq::new(v.len(), |i: int| v[i]@)
}

impl View for TracePath {
    type V = Seq<TracePrefixView>;

    closed spec fn view(&self) -> Seq<TracePrefixView> {
        prefixes_of(self.prefixes@)
    }
}

/// The port of the pair of parts at `pos`, counted from the end.
pub open spec fn pair_port(parts: Seq<Seq<char>>, pos: int) -> Seq<char> {
    parts[parts.len() - 2 - 2 * pos]
}

/// The channel of the pair of parts at `pos`, counted from the end.
pub open spec fn pair_channel(parts: Seq<Seq<char>>, pos: int) -> Seq<char> {
    parts[parts.len() - 1 - 2 * pos]
}

/// The fault of the pair of parts at `pos`: a port that is no port
/// identifier, or else a channel that is no channel identifier.
pub open spec fn pair_fault(parts: Seq<Seq<char>>, pos: int) -> Option<NftTransferError> {
    match identifier_fault(pair_port(parts, pos), 2, 128) {
        Some(e) => Some(
            NftTransferError::InvalidTracePortId { pos: pos as u64, validation_error: e },
        ),
        None => match identifier_fault(pair_channel(parts, pos), 8, 64) {
            Some(e) => Some(
                NftTransferError::InvalidTraceChannelId { pos: pos as u64, validation_error: e },
            ),
            None => None,
        },
    }
}

/// Whether `pos` is the first pair, counted from the end, with a fault.
pub open spec fn is_first_fault(parts: Seq<Seq<char>>, pos: int) -> bool {
    &&& 0 <= pos < parts.len() / 2
    &&& pair_fault(parts, pos).is_some()
    &&& forall|k: int| 0 <= k < pos ==> (#[trigger] pair_fault(parts, k)).is_none()
}

/// The prefixes that the pairs of parts stand for, the last pair first.
pub open spec fn trace_prefixes(parts: Seq<Seq<char>>) -> Seq<TracePrefixView> {
    Seq::new(
        (parts.len() / 2) as nat,
        |k: int|
            TracePrefixView { port_id: pair_port(parts, k), channel_id: pair_channel(parts, k) },
    )
}

/// The trace that a list of parts stands for: the parts are taken in
/// pairs of port and channel. An odd number of parts is refused; so is the
/// first pair, counted from the end, with a fault.
pub open spec fn trace_of_parts(parts: Seq<Seq<char>>) -> Result<
    Seq<TracePrefixView>,
    NftTransferError,
> {
    if parts.len() % 2 != 0 {
        Err(NftTransferError::InvalidTraceLength { len: parts.len() as u64 })
    } else if exists|pos: int| is_first_fault(parts, pos) {
        Err(pair_fault(parts, choose|pos: int| is_first_fault(parts, pos)).unwrap())
    } else {
        Ok(trace_prefixes(parts))
    }
}

/// The trace that a string stands for: a blank string without `/` is the
/// empty trace; any other string is split at `/` and read as parts.
pub open spec fn trace_of_str(s: Seq<char>) -> Result<Seq<TracePrefixView>, NftTransferError> {
    if split(s, '/').len() == 1 && is_blank(split(s, '/')[0]) {
        Ok(Seq::<TracePrefixView>::empty())
    } else {
        trace_of_parts(split(s, '/'))
    }
}

/// A trace as it is written: its prefixes, the last first, with `/`
/// between them.
pub open spec fn trace_string(trace: Seq<TracePrefixView>) -> Seq<char> {
    join(Seq::new(trace.len(), |i: int| prefix_string(trace[trace.len() - 1 - i])), '/')
}

/// The values of a list of strings.
pub open spec fn strs_of(v: Seq<&str>) -> Seq<Seq<char>> {
    Seq::new(v.len(), |i: int| v[i]@)
}

/// Whether a result of reading a trace is what the model says.
pub open spec fn trace_result_is(
    r: Result<TracePath, NftTransferError>,
    expected: Result<Seq<TracePrefixView>, NftTransferError>,
) -> bool {
    match (r, expected) {
        (Ok(path), Ok(trace)) => path@ == trace,
        (Err(e), Err(f)) => e == f,
        _ => false,
    }
}

impl TracePath {
    /// The empty trace.
    pub fn default() -> (r: TracePath)
        ensures
            r@ == Seq::<TracePrefixView>::empty(),
    {
        let r = TracePath { prefixes: Vec::new() };
        assert(r@ =~= Seq::<TracePrefixView>::empty());
        r
    }

    /// Returns true iff this path starts with the specified prefix, that
    /// is, iff the prefix is the one written first.
    pub fn starts_with(&self, prefix: &TracePrefix) -> (r: bool)
        ensures
            r == (self@.len() > 0 && self@.last() == prefix@),
    {
        let n = self.prefixes.len();
        if n == 0 {
            false
        } else {
            self.prefixes[n - 1].same(prefix)
        }
    }

    /// Removes the specified prefix from the path if there is a match,
    /// otherwise does nothing.
    pub fn remove_prefix(&mut self, prefix: &TracePrefix)
        ensures
            final(self)@ == (if old(self)@.len() > 0 && old(self)@.last() == prefix@ {
                old(self)@.drop_last()
            } else {
                old(self)@
            }),
    {
        if self.starts_with(prefix) {
            self.prefixes.pop();
            assert(self@ =~= old(self)@.drop_last());
        }
    }

    /// Adds the specified prefix to the path.
    pub fn add_prefix(&mut self, prefix: TracePrefix)
        ensures
            final(self)@ == old(self)@.push(prefix@),
    {
        self.prefixes.push(prefix);
        assert(self@ =~= old(self)@.push(prefix@));
    }

    /// Returns true if the path is empty and false otherwise.
    pub fn is_empty(&self) -> (r: bool)
        ensures
            r == (self@.len() == 0),
    {
        self.prefixes.len() == 0
    }

    /// The number of prefixes.
    pub fn len(&self) -> (r: usize)
        ensures
            r == self@.len(),
    {
        self.prefixes.len()
    }

    /// Reads a trace from the first `count` of the parts given.
    pub fn from_parts(parts: &Vec<Vec<char>>, count: usize) -> (r: Result<
        TracePath,
        NftTransferError,
    >)
        requires
            count <= parts.len(),
        ensures
            trace_result_is(r, trace_of_parts(chars_of(parts@).take(count as int))),
    {
        let ghost all = chars_of(parts@).take(count as int);
        if count % 2 != 0 {
            return Err(NftTransferError::InvalidTraceLength { len: count as u64 });
        }
        let pairs = count / 2;
        let mut trace: Vec<TracePrefix> = Vec::new();
        let mut pos: usize = 0;
        while pos < pairs
            invariant
                pos <= pairs,
                pairs * 2 == count,
                count <= parts.len(),
                all == chars_of(parts@).take(count as int),
                trace.len() == pos,
                forall|k: int| 0 <= k < pos ==> (#[trigger] pair_fault(all, k)).is_none(),
                forall|k: int|
                    0 <= k < pos ==> (#[trigger] trace@[k])@ == trace_prefixes(all)[k],
            decreases pairs - pos,
        {
            let port_at = count - 2 - 2 * pos;
            let port_part = &parts[port_at];
            let channel_part = &parts[port_at + 1];
            assert(port_part@ == pair_port(all, pos as int));
            assert(channel_part@ == pair_channel(all, pos as int));
            assert(port_part@.subrange(0, port_part.len() as int) =~= port_part@);
            assert(channel_part@.subrange(0, channel_part.len() as int) =~= channel_part@);
            let port_id = match PortId::from_chars(port_part, 0, port_part.len()) {
                Ok(id) => id,
                Err(e) => {
                    proof {
                        assert(is_first_fault(all, pos as int));
                        lemma_first_fault_unique(
                            all,
                            pos as int,
                            choose|p: int| is_first_fault(all, p),
                        );
                    }
                    return Err(
                        NftTransferError::InvalidTracePortId {
                            pos: pos as u64,
                            validation_error: e,
                        },
                    );
                },
            };
            let channel_id = match ChannelId::from_chars(channel_part, 0, channel_part.len()) {
                Ok(id) => id,
                Err(e) => {
                    proof {
                        assert(is_first_fault(all, pos as int));
                        lemma_first_fault_unique(
                            all,
                            pos as int,
                            choose|p: int| is_first_fault(all, p),
                        );
                    }
                    return Err(
                        NftTransferError::InvalidTraceChannelId {
                            pos: pos as u64,
                            validation_error: e,
                        },
                    );
                },
            };
            trace.push(TracePrefix { port_id, channel_id });
            pos += 1;
        }
        let path = TracePath { prefixes: trace };
        proof {
            assert forall|p: int| !is_first_fault(all, p) by {
                if is_first_fault(all, p) {
                    assert(pair_fault(all, p).is_none());
                }
            }
            assert(path@ =~= trace_prefixes(all));
        }
        Ok(path)
    }

    /// Reads a trace from a list of parts, taken in pairs of port and
    /// channel.
    pub fn try_from(v: Vec<&str>) -> (r: Result<TracePath, NftTransferError>)
        ensures
            trace_result_is(r, trace_of_parts(strs_of(v@))),
    {
        let mut parts: Vec<Vec<char>> = Vec::new();
        let mut i: usize = 0;
        while i < v.len()
            invariant
                i <= v.len(),
                parts.len() == i,
                forall|j: int| 0 <= j < i ==> (#[trigger] parts@[j])@ == v@[j]@,
            decreases v.len() - i,
        {
            parts.push(str_chars(v[i]));
            i += 1;
        }
        assert(chars_of(parts@).take(parts.len() as int) =~= strs_of(v@));
        TracePath::from_parts(&parts, parts.len())
    }

    /// Reads a trace as it is written: see `trace_of_str`.
    pub fn from_str(s: &str) -> (r: Result<TracePath, NftTransferError>)
        ensures
            trace_result_is(r, trace_of_str(s@)),
    {
        let chars = str_chars(s);
        let parts = split_chars(&chars, '/');
        assert(parts@[0]@ == chars_of(parts@)[0]);
        assert(parts@[0]@.subrange(0, parts@[0].len() as int) =~= parts@[0]@);
        if parts.len() == 1 && blank(&parts[0], 0, parts[0].len()) {
            Ok(TracePath::default())
        } else {
            assert(chars_of(parts@).take(parts.len() as int) =~= chars_of(parts@));
            TracePath::from_parts(&parts, parts.len())
        }
    }

    /// The trace as it is written.
    pub fn to_string(&self) -> (r: String)
        ensures
            r@ == trace_string(self@),
    {
        let n = self.prefixes.len();
        let ghost trace = self@;
        let ghost written = Seq::new(
            trace.len(),
            |i: int| prefix_string(trace[trace.len() - 1 - i]),
        );
        let mut out = String::new();
        let mut i: usize = 0;
        while i < n
            invariant
                i <= n,
                n == self.prefixes.len(),
                trace == self@,
                written == Seq::new(
                    trace.len(),
                    |i: int| prefix_string(trace[trace.len() - 1 - i]),
                ),
                out@ == join(written.take(i as int), '/'),
            decreases n - i,
        {
            let ghost before = out@;
            if i > 0 {
                out.append("/");
            }
            let piece = self.prefixes[n - 1 - i].to_string();
            out.append(piece.as_str());
            proof {
                reveal_strlit("/");
                assert("/"@ =~= seq!['/']);
                assert(self.prefixes@[n - 1 - i]@ == trace[n - 1 - i]);
                assert(piece@ == written[i as int]);
                assert(written.take(i + 1).drop_last() =~= written.take(i as int));
                assert(written.take(i + 1).last() == written[i as int]);
                if i == 0 {
                    assert(before =~= Seq::<char>::empty());
                    assert(out@ =~= written[0]);
                }
            }
            i += 1;
        }
        assert(written.take(n as int) =~= written);
        out
    }

    pub fn same(&self, other: &TracePath) -> (r: bool)
        ensures
            r == (self@ == other@),
    {
        if self.prefixes.len() != other.prefixes.len() {
            assert(self@.len() != other@.len());
            return false;
        }
        let mut i: usize = 0;
        while i < self.prefixes.len()
            invariant
                i <= self.prefixes.len(),
                self.prefixes.len() == other.prefixes.len(),
                self@.len() == self.prefixes.len(),
                other@.len() == other.prefixes.len(),
                forall|j: int| 0 <= j < i ==> self@[j] == other@[j],
            decreases self.prefixes.len() - i,
        {
            if !self.prefixes[i].same(&other.prefixes[i]) {
                assert(self@[i as int] != other@[i as int]);
                return false;
            }
            i += 1;
        }
        assert(self@ =~= other@);
        true
    }
}

/// There is one first pair with a fault at most.
pub proof fn lemma_first_fault_unique(parts: Seq<Seq<char>>, a: int, b: int)
    requires
        is_first_fault(parts, a),
        is_first_fault(parts, b),
    ensures
        a == b,
{
    if a < b {
        assert(pair_fault(parts, a).is_none());
    } else if b < a {
        assert(pair_fault(parts, b).is_none());
    }
}

impl Clone for TracePath {
    fn clone(&self) -> (r: TracePath)
        ensures
            r@ == self@,
    {
        let mut out: Vec<TracePrefix> = Vec::new();
        let mut i: usize = 0;
        while i < self.prefixes.len()
            invariant
                i <= self.prefixes.len(),
                out.len() == i,
                forall|j: int| 0 <= j < i ==> (#[trigger] out@[j])@ == self.prefixes@[j]@,
            decreases self.prefixes.len() - i,
        {
            out.push(self.prefixes[i].clone());
            i += 1;
        }
        let r = TracePath { prefixes: out };
        assert(r@ =~= self@);
        r
    }
}

impl PartialEq for TracePath {
    fn eq(&self, other: &TracePath) -> (r: bool) {
        self.same(other)
    }
}

impl PartialEqSpecImpl for TracePath {
    open spec fn obeys_eq_spec() -> bool {
        true
    }

    open spec fn eq_spec(&self, other: &TracePath) -> bool {
        self@ == other@
    }
}

impl From<Vec<TracePrefix>> for TracePath {
    fn from(prefixes: Vec<TracePrefix>) -> (r: TracePath)
        ensures
            r@ == prefixes_of(prefixes@),
    {
        TracePath { prefixes }
    }
}

impl FromSpecImpl<Vec<TracePrefix>> for TracePath {
    open spec fn obeys_from_spec() -> bool {
        true
    }

    open spec fn from_spec(prefixes: Vec<TracePrefix>) -> TracePath {
        path_of(prefixes)
    }
}

/// The trace made of a list of prefixes, the one of the channel crossed
/// last standing last.
pub closed spec fn path_of(prefixes: Vec<TracePrefix>) -> TracePath {
    TracePath { prefixes }
}

/// A class with the path it has travelled.
#[derive(Debug)]
pub struct PrefixedClassId {
    /// A series of `{port-id}/{channel-id}`s for tracing the source of the
    /// class.
    pub trace_path: TracePath,
    /// Base class of the relayed non-fungible token.
    pub base_class_id: ClassId,
}

/// The mathematical value of a prefixed class.
pub struct PrefixedClassIdView {
    pub trace_path: Seq<TracePrefixView>,
    pub base_class_id: Seq<char>,
}

impl View for PrefixedClassId {
    type V = PrefixedClassIdView;

    open spec fn view(&self) -> PrefixedClassIdView {
        PrefixedClassIdView {
            trace_path: self.trace_path@,
            base_class_id: self.base_class_id@,
        }
    }
}

/// The prefixed class that a string stands for. The string is split at
/// `/`; its last part is the base class, which must not be blank; the parts
/// before it are the trace.
pub open spec fn prefixed_of_str(s: Seq<char>) -> Result<PrefixedClassIdView, NftTransferError> {
    let parts = split(s, '/');
    if is_blank(parts.last()) {
        Err(NftTransferError::EmptyBaseClassId)
    } else {
        match trace_of_parts(parts.drop_last()) {
            Ok(trace) => Ok(
                PrefixedClassIdView { trace_path: trace, base_class_id: parts.last() },
            ),
            Err(e) => Err(e),
        }
    }
}

/// A prefixed class as it is written: the base class alone where the trace
/// is empty, else the trace, `/` and the base class.
pub open spec fn prefixed_string(p: PrefixedClassIdView) -> Seq<char> {
    if p.trace_path.len() == 0 {
        p.base_class_id
    } else {
        trace_string(p.trace_path) + seq!['/'] + p.base_class_id
    }
}

/// Whether a result of reading a prefixed class is what the model says.
pub open spec fn prefixed_result_is(
    r: Result<PrefixedClassId, NftTransferError>,
    expected: Result<PrefixedClassIdView, NftTransferError>,
) -> bool {
    match (r, expected) {
        (Ok(class), Ok(view)) => class@ == view,
        (Err(e), Err(f)) => e == f,
        _ => false,
    }
}

/// A class as it goes over the wire: the trace and the base class, each as
/// it is written.
#[derive(Clone, Debug)]
pub struct RawClassTrace {
    pub path: String,
    pub base_class_id: String,
}

impl PrefixedClassId {
    /// Removes the specified prefix from the trace path if there is a
    /// match, otherwise does nothing.
    pub fn remove_trace_prefix(&mut self, prefix: &TracePrefix)
        ensures
            final(self)@.base_class_id == old(self)@.base_class_id,
            final(self)@.trace_path == (if old(self)@.trace_path.len() > 0
                && old(self)@.trace_path.last() == prefix@ {
                old(self)@.trace_path.drop_last()
            } else {
                old(self)@.trace_path
            }),
    {
        self.trace_path.remove_prefix(prefix)
    }

    /// Adds the specified prefix to the trace path.
    pub fn add_trace_prefix(&mut self, prefix: TracePrefix)
        ensures
            final(self)@.base_class_id == old(self)@.base_class_id,
            final(self)@.trace_path == old(self)@.trace_path.push(prefix@),
    {
        self.trace_path.add_prefix(prefix)
    }

    /// Reads a prefixed class as it is written: see `prefixed_of_str`.
    pub fn from_str(s: &str) -> (r: Result<PrefixedClassId, NftTransferError>)
        ensures
            prefixed_result_is(r, prefixed_of_str(s@)),
    {
        let chars = str_chars(s);
        let parts = split_chars(&chars, '/');
        let last = parts.len() - 1;
        let last_part = &parts[last];
        assert(last_part@ == chars_of(parts@).last());
        assert(chars_of(parts@).take(last as int) =~= chars_of(parts@).drop_last());
        let base_class_id = ClassId::from_chars(last_part)?;
        let trace_path = TracePath::from_parts(&parts, last)?;
        Ok(PrefixedClassId { trace_path, base_class_id })
    }

    /// Reads a prefixed class from its wire form: the base class must not
    /// be blank, and the path must be a trace as `trace_of_str` reads it.
    pub fn try_from(value: RawClassTrace) -> (r: Result<PrefixedClassId, NftTransferError>)
        ensures
            prefixed_result_is(
                r,
                if is_blank(value.base_class_id@) {
                    Err(NftTransferError::EmptyBaseClassId)
                } else {
                    match trace_of_str(value.path@) {
                        Ok(trace) => Ok(
                            PrefixedClassIdView {
                                trace_path: trace,
                                base_class_id: value.base_class_id@,
                            },
                        ),
                        Err(e) => Err(e),
                    }
                },
            ),
    {
        let base_class_id = ClassId::from_str(value.base_class_id.as_str())?;
        let trace_path = TracePath::from_str(value.path.as_str())?;
        Ok(PrefixedClassId { trace_path, base_class_id })
    }

    /// The wire form of the class.
    pub fn to_raw(&self) -> (r: RawClassTrace)
        ensures
            r.path@ == trace_string(self@.trace_path),
            r.base_class_id@ == self@.base_class_id,
    {
        RawClassTrace {
            path: self.trace_path.to_string(),
            base_class_id: self.base_class_id.to_string(),
        }
    }

    /// A class that has not travelled.
    pub fn from(class_id: ClassId) -> (r: PrefixedClassId)
        ensures
            r@ == (PrefixedClassIdView {
                trace_path: Seq::empty(),
                base_class_id: class_id@,
            }),
    {
        PrefixedClassId { trace_path: TracePath::default(), base_class_id: class_id }
    }

    /// The class as it is written.
    pub fn to_string(&self) -> (r: String)
        ensures
            r@ == prefixed_string(self@),
    {
        if self.trace_path.is_empty() {
            self.base_class_id.to_string()
        } else {
            let mut out = self.trace_path.to_string();
            out.append("/");
            out.append(self.base_class_id.as_ref());
            proof {
                reveal_strlit("/");
                assert("/"@ =~= seq!['/']);
                assert(out@ =~= prefixed_string(self@));
            }
            out
        }
    }

    pub fn same(&self, other: &PrefixedClassId) -> (r: bool)
        ensures
            r == (self@ == other@),
    {
        self.trace_path.same(&other.trace_path) && self.base_class_id.same(&other.base_class_id)
    }
}

impl Clone for PrefixedClassId {
    fn clone(&self) -> (r: PrefixedClassId)
        ensures
            r@ == self@,
    {
        PrefixedClassId {
            trace_path: self.trace_path.clone(),
            base_class_id: self.base_class_id.clone(),
        }
    }
}

impl PartialEq for PrefixedClassId {
    fn eq(&self, other: &PrefixedClassId) -> (r: bool) {
        self.same(other)
    }
}

impl PartialEqSpecImpl for PrefixedClassId {
    open spec fn obeys_eq_spec() -> bool {
        true
    }

    open spec fn eq_spec(&self, other: &PrefixedClassId) -> bool {
        self@ == other@
    }
}

/// Returns true if the class ID originally came from the sender chain and
/// false otherwise.
pub fn is_sender_chain_source(
    source_port: PortId,
    source_channel: ChannelId,
    class_id: &PrefixedClassId,
) -> (r: bool)
    ensures
        r == !(class_id@.trace_path.len() > 0 && class_id@.trace_path.last() == (TracePrefixView {
            port_id: source_port@,
            channel_id: source_channel@,
        })),
{
    !is_receiver_chain_source(source_port, source_channel, class_id)
}

/// Returns true if the class ID originally came from the receiving chain
/// and false otherwise: that is, if the class arrived on the sender chain
/// over the very port and channel that it is now sent back on.
pub fn is_receiver_chain_source(
    source_port: PortId,
    source_channel: ChannelId,
    class_id: &PrefixedClassId,
) -> (r: bool)
    ensures
        r == (class_id@.trace_path.len() > 0 && class_id@.trace_path.last() == (TracePrefixView {
            port_id: source_port@,
            channel_id: source_channel@,
        })),
{
    let prefix = TracePrefix::new(source_port, source_channel);
    class_id.trace_path.starts_with(&prefix)
}

/// Whether the `http` crate reads a string as a URI.
pub uninterp spec fn uri_accepted(s: Seq<char>) -> bool;

/// `Uri::from_str` of the `http` crate: whether the string is read as a
/// URI.
#[verifier::external_body]
fn uri_parses(s: &str) -> (r: bool)
    ensures
        r == uri_accepted(s@),
{
    <http::Uri as std::str::FromStr>::from_str(s).is_ok()
}

/// The URI of a class.
#[derive(Clone, Debug)]
pub struct ClassUri {
    uri: String,
}

impl View for ClassUri {
    type V = Seq<char>;

    closed spec fn view(&self) -> Seq<char> {
        self.uri@
    }
}

impl ClassUri {
    /// Makes a class URI of a string, given whether the string was read as
    /// a URI.
    pub fn from_parsed(class_uri: &str, parses: bool) -> (r: Result<ClassUri, NftTransferError>)
        ensures
            parses ==> r.is_ok() && r.unwrap()@ == class_uri@,
            !parses ==> r == Err::<ClassUri, NftTransferError>(NftTransferError::InvalidUri),
    {
        if parses {
            Ok(ClassUri { uri: class_uri.to_owned() })
        } else {
            Err(NftTransferError::InvalidUri)
        }
    }

    /// Reads a class URI: any string that the `http` crate reads as a URI.
    pub fn from_str(class_uri: &str) -> (r: Result<ClassUri, NftTransferError>)
        ensures
            uri_accepted(class_uri@) ==> r.is_ok() && r.unwrap()@ == class_uri@,
            !uri_accepted(class_uri@) ==> r == Err::<ClassUri, NftTransferError>(
                NftTransferError::InvalidUri,
            ),
    {
        ClassUri::from_parsed(class_uri, uri_parses(class_uri))
    }

    pub fn as_ref(&self) -> (r: &str)
        ensures
            r@ == self@,
    {
        self.uri.as_str()
    }

    pub fn to_string(&self) -> (r: String)
        ensures
            r@ == self@,
    {
        self.uri.clone()
    }
}

/// The pairs of a list of parts, each written as `{port}/{channel}`, in
/// the order of the parts.
pub open spec fn pairs_written(parts: Seq<Seq<char>>) -> Seq<Seq<char>> {
    Seq::new(
        (parts.len() / 2) as nat,
        |i: int| parts[2 * i] + seq!['/'] + parts[2 * i + 1],
    )
}

/// Joining the pairs of an even number of parts is joining the parts.
pub proof fn lemma_join_pairs(parts: Seq<Seq<char>>)
    requires
        parts.len() % 2 == 0,
    ensures
        join(pairs_written(parts), '/') == join(parts, '/'),
    decreases parts.len(),
{
    if parts.len() == 0 {
    } else {
        let shorter = parts.take(parts.len() - 2);
        lemma_join_pairs(shorter);
        let n = parts.len() as int;
        assert(pairs_written(parts).drop_last() =~= pairs_written(shorter));
        assert(parts.drop_last().drop_last() =~= shorter);
        if n == 2 {
            assert(parts.drop_last() =~= seq![parts[0]]);
            assert(join(parts.drop_last(), '/') == parts[0]);
            assert(join(parts, '/') =~= parts[0] + seq!['/'] + parts[1]);
            assert(join(pairs_written(parts), '/') == pairs_written(parts)[0]);
        } else {
            let mid = parts.drop_last();
            assert(join(parts, '/') == join(mid, '/') + seq!['/'] + parts[n - 1]);
            assert(join(mid, '/') == join(shorter, '/') + seq!['/'] + parts[n - 2]);
            assert(join(pairs_written(parts), '/') == join(pairs_written(shorter), '/') + seq![
                '/',
            ] + pairs_written(parts).last());
            assert(join(pairs_written(parts), '/') =~= join(parts, '/'));
        }
    }
}

/// A prefixed class that was read from a string is written as that string.
pub proof fn law_read_then_written(s: Seq<char>)
    requires
        prefixed_of_str(s).is_ok(),
    ensures
        prefixed_string(prefixed_of_str(s).unwrap()) == s,
{
    let parts = split(s, '/');
    lemma_split_nonempty(s, '/');
    lemma_join_split(s, '/');
    let before = parts.drop_last();
    let class = prefixed_of_str(s).unwrap();
    assert(class.trace_path == trace_prefixes(before));
    if parts.len() == 1 {
        assert(class.trace_path.len() == 0);
    } else {
        lemma_join_pairs(before);
        let trace = class.trace_path;
        assert(Seq::new(trace.len(), |i: int| prefix_string(trace[trace.len() - 1 - i]))
            =~= pairs_written(before));
        assert(trace_string(trace) == join(before, '/'));
    }
}

/// Whether a prefixed class can be written and read again: its ports and
/// channels are valid identifiers, and its base class is not blank and
/// holds no `/`.
pub open spec fn writable(p: PrefixedClassIdView) -> bool {
    &&& forall|i: int|
        0 <= i < p.trace_path.len() ==> valid_port_id((#[trigger] p.trace_path[i]).port_id)
            && valid_channel_id(p.trace_path[i].channel_id)
    &&& !is_blank(p.base_class_id)
    &&& is_clean(p.base_class_id, '/')
}

/// The parts of a trace as it is written: port and channel of each prefix,
/// the last prefix first.
pub open spec fn trace_parts(trace: Seq<TracePrefixView>) -> Seq<Seq<char>> {
    Seq::new(
        2 * trace.len(),
        |j: int|
            if j % 2 == 0 {
                trace[trace.len() - 1 - j / 2].port_id
            } else {
                trace[trace.len() - 1 - j / 2].channel_id
            },
    )
}

/// A prefixed class that is written is read as the same prefixed class,
/// provided that it can be written and read again at all.
pub proof fn law_written_then_read(p: PrefixedClassIdView)
    requires
        writable(p),
    ensures
        prefixed_of_str(prefixed_string(p)) == Ok::<PrefixedClassIdView, NftTransferError>(p),
{
    let trace = p.trace_path;
    let n = trace.len() as int;
    let before = trace_parts(trace);
    let parts = before.push(p.base_class_id);
    let written = prefixed_string(p);
    assert(parts.drop_last() =~= before);
    // the class is written as its parts, joined
    if n == 0 {
        assert(join(parts, '/') == p.base_class_id);
    } else {
        lemma_join_pairs(before);
        assert(Seq::new(trace.len(), |i: int| prefix_string(trace[trace.len() - 1 - i]))
            =~= pairs_written(before)) by {
            assert forall|i: int| 0 <= i < n implies prefix_string(trace[n - 1 - i])
                == #[trigger] pairs_written(before)[i] by {
                assert((2 * i) % 2 == 0 && (2 * i) / 2 == i);
                assert((2 * i + 1) % 2 == 1 && (2 * i + 1) / 2 == i);
            }
        }
        assert(trace_string(trace) == join(before, '/'));
        assert(join(parts, '/') == join(before, '/') + seq!['/'] + p.base_class_id);
    }
    assert(written == join(parts, '/'));
    // no part holds the separator, so the parts are read back
    assert forall|j: int| 0 <= j < parts.len() implies is_clean(#[trigger] parts[j], '/') by {
        if j < 2 * n {
            let k = n - 1 - j / 2;
            assert(valid_port_id(trace[k].port_id) && valid_channel_id(trace[k].channel_id));
            assert(!parts[j].contains('/'));
            assert forall|i: int| 0 <= i < parts[j].len() implies #[trigger] parts[j][i]
                != '/' by {
                if parts[j][i] == '/' {
                    assert(parts[j].contains('/'));
                }
            }
        }
    }
    lemma_split_join(parts, '/');
    assert(split(written, '/') == parts);
    // the parts before the base class are read as the trace
    assert forall|k: int| 0 <= k < n implies (#[trigger] pair_fault(before, k)).is_none()
        && trace_prefixes(before)[k] == trace[k] by {
        let at = 2 * n - 2 - 2 * k;
        assert(at % 2 == 0 && at / 2 == n - 1 - k);
        assert((at + 1) % 2 == 1 && (at + 1) / 2 == n - 1 - k);
        assert(pair_port(before, k) == trace[k].port_id);
        assert(pair_channel(before, k) == trace[k].channel_id);
        assert(valid_port_id(trace[k].port_id) && valid_channel_id(trace[k].channel_id));
    }
    assert forall|pos: int| !is_first_fault(before, pos) by {
        if is_first_fault(before, pos) {
            assert(pair_fault(before, pos).is_none());
        }
    }
    assert(trace_prefixes(before) =~= trace);
}

} // verus!

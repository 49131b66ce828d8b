//! Host identifiers: the character set and length bounds that every
//! identifier obeys, and the typed identifiers built on them.

use vstd::prelude::*;
use vstd::std_specs::cmp::PartialEqSpecImpl;

use crate::text::{
    chars_to_string, decimal_digits, is_digit, lemma_decimal_digits_u64, numeral_u64, parse_u64,
    push_chars, str_chars, u64_to_chars,
};

verus! {

/// Why a string is not accepted as an identifier.
#[derive(Clone, Copy, Debug, PartialEq, Eq, Structural, Hash)]
pub enum IdentifierError {
    /// The string is empty.
    Empty,
    /// The string holds the path separator `/`.
    ContainsSeparator,
    /// The string holds a character outside the identifier alphabet.
    InvalidCharacter,
    /// The string is shorter or longer than the identifier kind allows.
    InvalidLength,
}

/// The identifier alphabet: ASCII letters and digits, and `. _ + - # [ ] < >`.
pub open spec fn is_identifier_char(c: char) -> bool {
    ||| ('a' <= c && c <= 'z')
    ||| ('A' <= c && c <= 'Z')
    ||| ('0' <= c && c <= '9')
    ||| c == '.'
    ||| c == '_'
    ||| c == '+'
    ||| c == '-'
    ||| c == '#'
    ||| c == '['
    ||| c == ']'
    ||| c == '<'
    ||| c == '>'
}

/// The verdict on a string as an identifier whose length must lie in
/// `min..=max`: the first of the four faults that applies, or `None`.
pub open spec fn identifier_fault(s: Seq<char>, min: int, max: int) -> Option<IdentifierError> {
    if s.len() == 0 {
        Some(IdentifierError::Empty)
    } else if s.contains('/') {
        Some(IdentifierError::ContainsSeparator)
    } else if exists|i: int| 0 <= i < s.len() && !is_identifier_char(#[trigger] s[i]) {
        Some(IdentifierError::InvalidCharacter)
    } else if s.len() < min || s.len() > max {
        Some(IdentifierError::InvalidLength)
    } else {
        None
    }
}

pub open spec fn valid_identifier(s: Seq<char>, min: int, max: int) -> bool {
    identifier_fault(s, min, max).is_none()
}

pub open spec fn valid_port_id(s: Seq<char>) -> bool {
    valid_identifier(s, 2, 128)
}

pub open spec fn valid_channel_id(s: Seq<char>) -> bool {
    valid_identifier(s, 8, 64)
}

pub open spec fn valid_client_id(s: Seq<char>) -> bool {
    valid_identifier(s, 9, 64)
}

pub open spec fn valid_connection_id(s: Seq<char>) -> bool {
    valid_identifier(s, 10, 64)
}

pub open spec fn valid_chain_id(s: Seq<char>) -> bool {
    valid_identifier(s, 1, 64)
}

fn identifier_char(c: char) -> (r: bool)
    ensures
        r == is_identifier_char(c),
{
    ('a' <= c && c <= 'z') || ('A' <= c && c <= 'Z') || ('0' <= c && c <= '9') || c == '.' || c
        == '_' || c == '+' || c == '-' || c == '#' || c == '[' || c == ']' || c == '<' || c == '>'
}

/// Checks `v` as an identifier whose length must lie in `min..=max`.
pub fn validate_identifier(v: &Vec<char>, min: usize, max: usize) -> (r: Result<
    (),
    IdentifierError,
>)
    ensures
        match identifier_fault(v@, min as int, max as int) {
            Some(e) => r == Err::<(), IdentifierError>(e),
            None => r.is_ok(),
        },
{
    if v.len() == 0 {
        return Err(IdentifierError::Empty);
    }
    let mut i: usize = 0;
    while i < v.len()
        invariant
            i <= v.len(),
            forall|j: int| 0 <= j < i ==> v@[j] != '/',
        decreases v.len() - i,
    {
        if v[i] == '/' {
            assert(v@.contains('/'));
            return Err(IdentifierError::ContainsSeparator);
        }
        i += 1;
    }
    assert(!v@.contains('/'));
    let mut k: usize = 0;
    while k < v.len()
        invariant
            k <= v.len(),
            v.len() > 0,
            !v@.contains('/'),
            forall|j: int| 0 <= j < k ==> is_identifier_char(#[trigger] v@[j]),
        decreases v.len() - k,
    {
        if !identifier_char(v[k]) {
            assert(!is_identifier_char(v@[k as int]));
            return Err(IdentifierError::InvalidCharacter);
        }
        k += 1;
    }
    if v.len() < min || v.len() > max {
        return Err(IdentifierError::InvalidLength);
    }
    Ok(())
}

/// The position of the last `-` in `s`, if there is one.
pub open spec fn last_dash(s: Seq<char>) -> Option<int> {
    if exists|i: int| is_last_dash(s, i) {
        Some(choose|i: int| is_last_dash(s, i))
    } else {
        None
    }
}

pub open spec fn is_last_dash(s: Seq<char>, i: int) -> bool {
    &&& 0 <= i < s.len()
    &&& s[i] == '-'
    &&& forall|j: int| i < j < s.len() ==> s[j] != '-'
}

/// The revision that a chain identifier names: the canonical numeral behind
/// its last `-`, and zero where there is none.
pub open spec fn chain_revision(s: Seq<char>) -> u64 {
    match last_dash(s) {
        Some(i) => match numeral_u64(s.subrange(i + 1, s.len() as int)) {
            Some(n) => n,
            None => 0,
        },
        None => 0,
    }
}

/// The name of a chain: its identifier without the dash and numeral that
/// name the revision; the whole identifier where it names no revision.
pub open spec fn chain_name(s: Seq<char>) -> Seq<char> {
    match last_dash(s) {
        Some(i) => if numeral_u64(s.subrange(i + 1, s.len() as int)).is_some() {
            s.subrange(0, i)
        } else {
            s
        },
        None => s,
    }
}

/// The identifier of a chain, of the form `<name>-<revision>`.
#[derive(Debug)]
pub struct ChainId {
    id: String,
    revision_number: u64,
}

impl View for ChainId {
    type V = Seq<char>;

    closed spec fn view(&self) -> Seq<char> {
        self.id@
    }
}

impl ChainId {
    #[verifier::type_invariant]
    spec fn well_formed(self) -> bool {
        valid_chain_id(self.id@) && self.revision_number == chain_revision(self.id@)
    }

    /// The revision that the identifier names.
    pub open spec fn revision(&self) -> u64 {
        chain_revision(self@)
    }

    /// Reads a chain identifier.
    pub fn from_str(s: &str) -> (r: Result<ChainId, IdentifierError>)
        ensures
            match identifier_fault(s@, 1, 64) {
                Some(e) => r == Err::<ChainId, IdentifierError>(e),
                None => r.is_ok() && r.unwrap()@ == s@,
            },
    {
        let v = str_chars(s);
        match validate_identifier(&v, 1, 64) {
            Err(e) => Err(e),
            Ok(()) => {
                let revision_number = revision_of(&v);
                let id = chars_to_string(&v, 0, v.len());
                assert(id@ =~= s@);
                Ok(ChainId { id, revision_number })
            },
        }
    }

    /// The identifier as a string; it is a valid identifier of 1 to 64
    /// characters.
    pub fn as_str(&self) -> (r: &str)
        ensures
            r@ == self@,
            valid_chain_id(self@),
    {
        proof {
            use_type_invariant(self);
        }
        self.id.as_str()
    }

    pub fn revision_number(&self) -> (r: u64)
        ensures
            r == self.revision(),
    {
        proof {
            use_type_invariant(self);
        }
        self.revision_number
    }

    /// Whether two chain identifiers name the same chain, be it at
    /// different revisions.
    pub fn same_name(&self, other: &ChainId) -> (r: bool)
        ensures
            r == (chain_name(self@) == chain_name(other@)),
    {
        let a = str_chars(self.id.as_str());
        let b = str_chars(other.id.as_str());
        let n = name_length(&a);
        let m = name_length(&b);
        if n != m {
            assert(chain_name(self@).len() != chain_name(other@).len());
            return false;
        }
        let mut i: usize = 0;
        while i < n
            invariant
                i <= n,
                n == m,
                n <= a.len(),
                m <= b.len(),
                a@.subrange(0, n as int) == chain_name(self@),
                b@.subrange(0, m as int) == chain_name(other@),
                forall|j: int| 0 <= j < i ==> a@[j] == b@[j],
            decreases n - i,
        {
            if a[i] != b[i] {
                assert(a@.subrange(0, n as int)[i as int] != b@.subrange(0, m as int)[i as int]);
                return false;
            }
            i += 1;
        }
        assert(a@.subrange(0, n as int) =~= b@.subrange(0, m as int));
        true
    }

    /// Whether two chain identifiers are the same string.
    pub fn same(&self, other: &ChainId) -> (r: bool)
        ensures
            r == (self@ == other@),
    {
        self.id == other.id
    }

}

impl Clone for ChainId {
    fn clone(&self) -> (r: ChainId)
        ensures
            r@ == self@,
    {
        proof {
            use_type_invariant(self);
        }
        ChainId { id: self.id.clone(), revision_number: self.revision_number }
    }
}

/// Computes the length of the name in a chain identifier.
fn name_length(v: &Vec<char>) -> (r: usize)
    ensures
        r <= v.len(),
        v@.subrange(0, r as int) == chain_name(v@),
{
    let mut i: usize = v.len();
    while i > 0
        invariant
            i <= v.len(),
            forall|j: int| i <= j < v.len() ==> v@[j] != '-',
        decreases i,
    {
        if v[i - 1] == '-' {
            assert(is_last_dash(v@, i - 1));
            let ghost chosen = choose|k: int| is_last_dash(v@, k);
            assert(chosen == i - 1) by {
                if chosen < i - 1 {
                    assert(v@[i - 1] != '-');
                }
            }
            return match parse_u64(v, i, v.len()) {
                Some(_) => i - 1,
                None => {
                    assert(v@.subrange(0, v.len() as int) =~= v@);
                    v.len()
                },
            };
        }
        i -= 1;
    }
    assert(forall|k: int| !is_last_dash(v@, k));
    assert(v@.subrange(0, v.len() as int) =~= v@);
    v.len()
}

/// Computes the revision that a chain identifier names.
fn revision_of(v: &Vec<char>) -> (r: u64)
    ensures
        r == chain_revision(v@),
{
    let mut i: usize = v.len();
    while i > 0
        invariant
            i <= v.len(),
            forall|j: int| i <= j < v.len() ==> v@[j] != '-',
        decreases i,
    {
        if v[i - 1] == '-' {
            assert(is_last_dash(v@, i - 1));
            let ghost chosen = choose|k: int| is_last_dash(v@, k);
            assert(chosen == i - 1) by {
                if chosen < i - 1 {
                    assert(v@[i - 1] != '-');
                }
            }
            return match parse_u64(v, i, v.len()) {
                Some(n) => n,
                None => 0,
            };
        }
        i -= 1;
    }
    assert(forall|k: int| !is_last_dash(v@, k));
    0
}

/// The identifier of a client: 9 to 64 identifier characters, by
/// convention `<client-type>-<counter>`.
#[derive(Debug)]
pub struct ClientId {
    id: String,
}

impl View for ClientId {
    type V = Seq<char>;

    closed spec fn view(&self) -> Seq<char> {
        self.id@
    }
}

impl ClientId {
    #[verifier::type_invariant]
    spec fn well_formed(self) -> bool {
        valid_client_id(self.id@)
    }

    /// The identifier of the client of a type with the given number:
    /// `{client_type}-{counter}`.
    pub fn new(client_type: &str, counter: u64) -> (r: Result<ClientId, IdentifierError>)
        ensures
            match identifier_fault(
                client_type@ + seq!['-'] + decimal_digits(counter as nat),
                9,
                64,
            ) {
                Some(e) => r == Err::<ClientId, IdentifierError>(e),
                None => r.is_ok() && r.unwrap()@ == client_type@ + seq!['-'] + decimal_digits(
                    counter as nat,
                ),
            },
    {
        let mut chars = str_chars(client_type);
        chars.push('-');
        let mut digits = u64_to_chars(counter);
        chars.append(&mut digits);
        assert(chars@ =~= client_type@ + seq!['-'] + decimal_digits(counter as nat));
        match validate_identifier(&chars, 9, 64) {
            Err(e) => Err(e),
            Ok(()) => Ok(ClientId { id: chars_to_string(&chars, 0, chars.len()) }),
        }
    }

    /// The identifier of the first Tendermint client: `07-tendermint-0`.
    pub fn default() -> (r: ClientId)
        ensures
            r@ == "07-tendermint-0"@,
    {
        let id = "07-tendermint-0".to_owned();
        proof {
            reveal_strlit("07-tendermint-0");
            assert forall|i: int| 0 <= i < id@.len() implies is_identifier_char(
                #[trigger] id@[i],
            ) && id@[i] != '/' by {}
            assert(!id@.contains('/'));
        }
        ClientId { id }
    }

    /// Reads a client identifier.
    pub fn from_str(s: &str) -> (r: Result<ClientId, IdentifierError>)
        ensures
            match identifier_fault(s@, 9, 64) {
                Some(e) => r == Err::<ClientId, IdentifierError>(e),
                None => r.is_ok() && r.unwrap()@ == s@,
            },
    {
        let v = str_chars(s);
        match validate_identifier(&v, 9, 64) {
            Err(e) => Err(e),
            Ok(()) => {
                let id = chars_to_string(&v, 0, v.len());
                assert(id@ =~= s@);
                Ok(ClientId { id })
            },
        }
    }

    /// The identifier as a string; it is a valid identifier of 9 to 64
    /// characters.
    pub fn as_str(&self) -> (r: &str)
        ensures
            r@ == self@,
            valid_client_id(self@),
    {
        proof {
            use_type_invariant(self);
        }
        self.id.as_str()
    }

    pub fn same(&self, other: &ClientId) -> (r: bool)
        ensures
            r == (self@ == other@),
    {
        self.id == other.id
    }

}

impl PartialEq for ClientId {
    fn eq(&self, other: &ClientId) -> (r: bool) {
        self.id == other.id
    }
}

impl PartialEqSpecImpl for ClientId {
    open spec fn obeys_eq_spec() -> bool {
        true
    }

    open spec fn eq_spec(&self, other: &ClientId) -> bool {
        self@ == other@
    }
}

impl Clone for ClientId {
    fn clone(&self) -> (r: ClientId)
        ensures
            r@ == self@,
    {
        proof {
            use_type_invariant(self);
        }
        ClientId { id: self.id.clone() }
    }
}

/// The identifier of a port: 2 to 128 identifier characters.
#[derive(Debug)]
pub struct PortId {
    id: String,
}

impl View for PortId {
    type V = Seq<char>;

    closed spec fn view(&self) -> Seq<char> {
        self.id@
    }
}

impl PortId {
    #[verifier::type_invariant]
    spec fn well_formed(self) -> bool {
        valid_port_id(self.id@)
    }

    /// Reads a port identifier.
    pub fn from_str(s: &str) -> (r: Result<PortId, IdentifierError>)
        ensures
            match identifier_fault(s@, 2, 128) {
                Some(e) => r == Err::<PortId, IdentifierError>(e),
                None => r.is_ok() && r.unwrap()@ == s@,
            },
    {
        let v = str_chars(s);
        assert(v@.subrange(0, v.len() as int) =~= s@);
        PortId::from_chars(&v, 0, v.len())
    }

    /// Reads `v[from..to]` as a port identifier.
    pub fn from_chars(v: &Vec<char>, from: usize, to: usize) -> (r: Result<
        PortId,
        IdentifierError,
    >)
        requires
            from <= to <= v.len(),
        ensures
            match identifier_fault(v@.subrange(from as int, to as int), 2, 128) {
                Some(e) => r == Err::<PortId, IdentifierError>(e),
                None => r.is_ok() && r.unwrap()@ == v@.subrange(from as int, to as int),
            },
    {
        let id = chars_to_string(v, from, to);
        let chars = str_chars(id.as_str());
        match validate_identifier(&chars, 2, 128) {
            Err(e) => Err(e),
            Ok(()) => Ok(PortId { id }),
        }
    }

    /// The identifier as a string; it is a valid identifier of 2 to
    /// 128 characters.
    pub fn as_str(&self) -> (r: &str)
        ensures
            r@ == self@,
            valid_port_id(self@),
    {
        proof {
            use_type_invariant(self);
        }
        self.id.as_str()
    }

    pub fn same(&self, other: &PortId) -> (r: bool)
        ensures
            r == (self@ == other@),
    {
        self.id == other.id
    }
}

impl Clone for PortId {
    fn clone(&self) -> (r: PortId)
        ensures
            r@ == self@,
    {
        proof {
            use_type_invariant(self);
        }
        PortId { id: self.id.clone() }
    }
}

impl PartialEq for PortId {
    fn eq(&self, other: &PortId) -> (r: bool) {
        self.id == other.id
    }
}

impl PartialEqSpecImpl for PortId {
    open spec fn obeys_eq_spec() -> bool {
        true
    }

    open spec fn eq_spec(&self, other: &PortId) -> bool {
        self@ == other@
    }
}

/// The identifier of a channel: 8 to 64 identifier characters.
#[derive(Debug)]
pub struct ChannelId {
    id: String,
}

impl View for ChannelId {
    type V = Seq<char>;

    closed spec fn view(&self) -> Seq<char> {
        self.id@
    }
}

impl ChannelId {
    #[verifier::type_invariant]
    spec fn well_formed(self) -> bool {
        valid_channel_id(self.id@)
    }

    /// Reads a channel identifier.
    pub fn from_str(s: &str) -> (r: Result<ChannelId, IdentifierError>)
        ensures
            match identifier_fault(s@, 8, 64) {
                Some(e) => r == Err::<ChannelId, IdentifierError>(e),
                None => r.is_ok() && r.unwrap()@ == s@,
            },
    {
        let v = str_chars(s);
        assert(v@.subrange(0, v.len() as int) =~= s@);
        ChannelId::from_chars(&v, 0, v.len())
    }

    /// Reads `v[from..to]` as a channel identifier.
    pub fn from_chars(v: &Vec<char>, from: usize, to: usize) -> (r: Result<
        ChannelId,
        IdentifierError,
    >)
        requires
            from <= to <= v.len(),
        ensures
            match identifier_fault(v@.subrange(from as int, to as int), 8, 64) {
                Some(e) => r == Err::<ChannelId, IdentifierError>(e),
                None => r.is_ok() && r.unwrap()@ == v@.subrange(from as int, to as int),
            },
    {
        let id = chars_to_string(v, from, to);
        let chars = str_chars(id.as_str());
        match validate_identifier(&chars, 8, 64) {
            Err(e) => Err(e),
            Ok(()) => Ok(ChannelId { id }),
        }
    }

    /// The identifier as a string; it is a valid identifier of 8 to
    /// 64 characters.
    pub fn as_str(&self) -> (r: &str)
        ensures
            r@ == self@,
            valid_channel_id(self@),
    {
        proof {
            use_type_invariant(self);
        }
        self.id.as_str()
    }

    pub fn same(&self, other: &ChannelId) -> (r: bool)
        ensures
            r == (self@ == other@),
    {
        self.id == other.id
    }
}

impl Clone for ChannelId {
    fn clone(&self) -> (r: ChannelId)
        ensures
            r@ == self@,
    {
        proof {
            use_type_invariant(self);
        }
        ChannelId { id: self.id.clone() }
    }
}

impl PartialEq for ChannelId {
    fn eq(&self, other: &ChannelId) -> (r: bool) {
        self.id == other.id
    }
}

impl PartialEqSpecImpl for ChannelId {
    open spec fn obeys_eq_spec() -> bool {
        true
    }

    open spec fn eq_spec(&self, other: &ChannelId) -> bool {
        self@ == other@
    }
}

/// The identifier of a connection: 10 to 64 identifier characters.
#[derive(Debug)]
pub struct ConnectionId {
    id: String,
}

impl View for ConnectionId {
    type V = Seq<char>;

    closed spec fn view(&self) -> Seq<char> {
        self.id@
    }
}

impl ConnectionId {
    #[verifier::type_invariant]
    spec fn well_formed(self) -> bool {
        valid_connection_id(self.id@)
    }

    /// The identifier of the connection with the given number:
    /// `connection-{id}`.
    pub fn new(id: u64) -> (r: ConnectionId)
        ensures
            r@ == "connection-"@ + decimal_digits(id as nat),
    {
        let mut out = String::new();
        let prefix = str_chars("connection-");
        push_chars(&mut out, &prefix);
        push_chars(&mut out, &u64_to_chars(id));
        proof {
            reveal_strlit("connection-");
            lemma_decimal_digits_u64(id);
            let digits = decimal_digits(id as nat);
            assert(out@ =~= "connection-"@ + digits);
            assert forall|i: int| 0 <= i < out@.len() implies is_identifier_char(
                #[trigger] out@[i],
            ) && out@[i] != '/' by {
                if i >= 11 {
                    assert(is_digit(digits[i - 11]));
                }
            }
            assert(!out@.contains('/'));
        }
        ConnectionId { id: out }
    }

    /// Reads a connection identifier.
    pub fn from_str(s: &str) -> (r: Result<ConnectionId, IdentifierError>)
        ensures
            match identifier_fault(s@, 10, 64) {
                Some(e) => r == Err::<ConnectionId, IdentifierError>(e),
                None => r.is_ok() && r.unwrap()@ == s@,
            },
    {
        let v = str_chars(s);
        assert(v@.subrange(0, v.len() as int) =~= s@);
        ConnectionId::from_chars(&v, 0, v.len())
    }

    /// Reads `v[from..to]` as a connection identifier.
    pub fn from_chars(v: &Vec<char>, from: usize, to: usize) -> (r: Result<
        ConnectionId,
        IdentifierError,
    >)
        requires
            from <= to <= v.len(),
        ensures
            match identifier_fault(v@.subrange(from as int, to as int), 10, 64) {
                Some(e) => r == Err::<ConnectionId, IdentifierError>(e),
                None => r.is_ok() && r.unwrap()@ == v@.subrange(from as int, to as int),
            },
    {
        let id = chars_to_string(v, from, to);
        let chars = str_chars(id.as_str());
        match validate_identifier(&chars, 10, 64) {
            Err(e) => Err(e),
            Ok(()) => Ok(ConnectionId { id }),
        }
    }

    /// The identifier as a string; it is a valid identifier of 10 to
    /// 64 characters.
    pub fn as_str(&self) -> (r: &str)
        ensures
            r@ == self@,
            valid_connection_id(self@),
    {
        proof {
            use_type_invariant(self);
        }
        self.id.as_str()
    }

    pub fn same(&self, other: &ConnectionId) -> (r: bool)
        ensures
            r == (self@ == other@),
    {
        self.id == other.id
    }
}

impl Clone for ConnectionId {
    fn clone(&self) -> (r: ConnectionId)
        ensures
            r@ == self@,
    {
        proof {
            use_type_invariant(self);
        }
        ConnectionId { id: self.id.clone() }
    }
}

impl PartialEq for ConnectionId {
    fn eq(&self, other: &ConnectionId) -> (r: bool) {
        self.id == other.id
    }
}

impl PartialEqSpecImpl for ConnectionId {
    open spec fn obeys_eq_spec() -> bool {
        true
    }

    open spec fn eq_spec(&self, other: &ConnectionId) -> bool {
        self@ == other@
    }
}

} // verus!

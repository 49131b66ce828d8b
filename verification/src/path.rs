//! The keys under which a host stores what it keeps for a client. The
//! layout is stable: counterparty chains prove against it.

use vstd::prelude::*;
use vstd::string::StringExecFns;

use crate::context::{ClientConsensusStatePath, ClientStatePath};
use crate::height::Height;
use crate::identifier::ClientId;
use crate::text::{decimal_digits, push_chars, u64_to_chars};

verus! {

/// A height as it is written in a key: `{revision_number}-{revision_height}`.
pub open spec fn height_key(height: Height) -> Seq<char> {
    decimal_digits(height.revision_number as nat) + seq!['-'] + decimal_digits(
        height.revision_height as nat,
    )
}

/// The key of a client state: `clients/{client_id}/clientState`.
pub open spec fn client_state_key(client_id: Seq<char>) -> Seq<char> {
    "clients/"@ + client_id + "/clientState"@
}

/// The key of a consensus state:
/// `clients/{client_id}/consensusStates/{revision_number}-{revision_height}`.
pub open spec fn consensus_state_key(client_id: Seq<char>, height: Height) -> Seq<char> {
    "clients/"@ + client_id + "/consensusStates/"@ + height_key(height)
}

/// The key of the host time at which a consensus state was stored:
/// `clients/{client_id}/processedTime/{revision_number}-{revision_height}`.
pub open spec fn processed_time_key(client_id: Seq<char>, height: Height) -> Seq<char> {
    "clients/"@ + client_id + "/processedTime/"@ + height_key(height)
}

/// The key of the host height at which a consensus state was stored:
/// `clients/{client_id}/processedHeight/{revision_number}-{revision_height}`.
pub open spec fn processed_height_key(client_id: Seq<char>, height: Height) -> Seq<char> {
    "clients/"@ + client_id + "/processedHeight/"@ + height_key(height)
}

/// Writes a height as it stands in a key.
pub fn height_to_string(height: &Height) -> (r: String)
    ensures
        r@ == height_key(*height),
{
    let mut out = String::new();
    push_chars(&mut out, &u64_to_chars(height.revision_number));
    out.append("-");
    push_chars(&mut out, &u64_to_chars(height.revision_height));
    proof {
        reveal_strlit("-");
        assert("-"@ =~= seq!['-']);
        assert(out@ =~= height_key(*height));
    }
    out
}

/// Writes the key `clients/{client_id}/{part}{height}`.
fn key_at_height(client_id: &ClientId, part: &str, height: &Height) -> (r: String)
    ensures
        r@ == "clients/"@ + client_id@ + part@ + height_key(*height),
{
    let mut out = String::new();
    out.append("clients/");
    out.append(client_id.as_str());
    out.append(part);
    let written = height_to_string(height);
    out.append(written.as_str());
    assert(out@ =~= "clients/"@ + client_id@ + part@ + height_key(*height));
    out
}

impl ClientStatePath {
    /// The key of the client state.
    pub fn to_string(&self) -> (r: String)
        ensures
            r@ == client_state_key(self.client_id@),
    {
        let mut out = String::new();
        out.append("clients/");
        out.append(self.client_id.as_str());
        out.append("/clientState");
        assert(out@ =~= client_state_key(self.client_id@));
        out
    }
}

impl ClientConsensusStatePath {
    /// The key of the consensus state.
    pub fn to_string(&self) -> (r: String)
        ensures
            r@ == consensus_state_key(self.client_id@, self.height()),
    {
        let height = Height {
            revision_number: self.revision_number,
            revision_height: self.revision_height,
        };
        key_at_height(&self.client_id, "/consensusStates/", &height)
    }
}

/// The key of the host time at which the consensus state of a client at a
/// height was stored.
pub fn processed_time_path(client_id: &ClientId, height: &Height) -> (r: String)
    ensures
        r@ == processed_time_key(client_id@, *height),
{
    key_at_height(client_id, "/processedTime/", height)
}

/// The key of the host height at which the consensus state of a client at
/// a height was stored.
pub fn processed_height_path(client_id: &ClientId, height: &Height) -> (r: String)
    ensures
        r@ == processed_height_key(client_id@, *height),
{
    key_at_height(client_id, "/processedHeight/", height)
}

} // verus!

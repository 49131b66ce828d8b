//! Ready-made values of the connection handshake, for tests.

use vstd::prelude::*;

use crate::identifier::{ClientId, ConnectionId};
use crate::text::decimal_digits;

verus! {

/// The prefix under which a chain keeps what it commits to.
#[derive(Clone, Debug)]
pub struct MerklePrefix {
    pub key_prefix: Vec<u8>,
}

/// The counterparty of a connection, as it goes over the wire.
#[derive(Clone, Debug)]
pub struct RawCounterparty {
    pub client_id: String,
    pub connection_id: String,
    pub prefix: Option<MerklePrefix>,
}

/// The key prefix of the dummies: the bytes of `ibc`.
pub open spec fn ibc_prefix() -> Seq<u8> {
    seq![105u8, 98u8, 99u8]
}

fn dummy_prefix() -> (r: MerklePrefix)
    ensures
        r.key_prefix@ == ibc_prefix(),
{
    let mut key_prefix: Vec<u8> = Vec::new();
    key_prefix.push(105);
    key_prefix.push(98);
    key_prefix.push(99);
    assert(key_prefix@ =~= ibc_prefix());
    MerklePrefix { key_prefix }
}

/// What a counterparty is made of. Unless set otherwise, the client is
/// `07-tendermint-0`, the connection `connection-0`, and the prefix `ibc`.
#[derive(Debug)]
pub struct CounterpartyConfig {
    pub client_id: &'static str,
    pub connection_id: &'static str,
    pub prefix: Option<MerklePrefix>,
}

/// Collects the settings of a `CounterpartyConfig`.
#[derive(Debug)]
pub struct CounterpartyConfigBuilder {
    pub client_id: &'static str,
    pub connection_id: &'static str,
    pub prefix: Option<MerklePrefix>,
}

impl CounterpartyConfig {
    /// A builder with every setting at its default.
    pub fn builder() -> (r: CounterpartyConfigBuilder)
        ensures
            r.client_id@ == "07-tendermint-0"@,
            r.connection_id@ == "connection-0"@,
            r.prefix matches Some(p) && p.key_prefix@ == ibc_prefix(),
    {
        CounterpartyConfigBuilder {
            client_id: "07-tendermint-0",
            connection_id: "connection-0",
            prefix: Some(dummy_prefix()),
        }
    }
}

impl CounterpartyConfigBuilder {
    pub fn client_id(self, client_id: &'static str) -> (r: CounterpartyConfigBuilder)
        ensures
            r.client_id@ == client_id@,
            r.connection_id == self.connection_id,
            r.prefix == self.prefix,
    {
        CounterpartyConfigBuilder {
            client_id,
            connection_id: self.connection_id,
            prefix: self.prefix,
        }
    }

    pub fn connection_id(self, connection_id: &'static str) -> (r: CounterpartyConfigBuilder)
        ensures
            r.client_id == self.client_id,
            r.connection_id@ == connection_id@,
            r.prefix == self.prefix,
    {
        CounterpartyConfigBuilder {
            client_id: self.client_id,
            connection_id,
            prefix: self.prefix,
        }
    }

    pub fn prefix(self, prefix: Option<MerklePrefix>) -> (r: CounterpartyConfigBuilder)
        ensures
            r.client_id == self.client_id,
            r.connection_id == self.connection_id,
            r.prefix == prefix,
    {
        CounterpartyConfigBuilder {
            client_id: self.client_id,
            connection_id: self.connection_id,
            prefix,
        }
    }

    /// The counterparty with the settings collected.
    pub fn build(self) -> (r: RawCounterparty)
        ensures
            r.client_id@ == self.client_id@,
            r.connection_id@ == self.connection_id@,
            r.prefix == self.prefix,
    {
        RawCounterparty::from(
            CounterpartyConfig {
                client_id: self.client_id,
                connection_id: self.connection_id,
                prefix: self.prefix,
            },
        )
    }
}

impl RawCounterparty {
    /// The counterparty that a configuration describes.
    pub fn from(config: CounterpartyConfig) -> (r: RawCounterparty)
        ensures
            r.client_id@ == config.client_id@,
            r.connection_id@ == config.connection_id@,
            r.prefix == config.prefix,
    {
        RawCounterparty {
            client_id: config.client_id.to_owned(),
            connection_id: config.connection_id.to_owned(),
            prefix: config.prefix,
        }
    }
}

/// A counterparty for tests: the default client, the connection with the
/// number given, or no connection where none is given, and the prefix
/// `ibc`.
pub fn dummy_raw_counterparty_conn(conn_id: Option<u64>) -> (r: RawCounterparty)
    ensures
        r.client_id@ == "07-tendermint-0"@,
        r.connection_id@ == (match conn_id {
            Some(id) => "connection-"@ + decimal_digits(id as nat),
            None => Seq::<char>::empty(),
        }),
        r.prefix matches Some(p) && p.key_prefix@ == ibc_prefix(),
{
    let connection_id = match conn_id {
        Some(id) => ConnectionId::new(id).as_str().to_owned(),
        None => String::new(),
    };
    RawCounterparty {
        client_id: ClientId::default().as_str().to_owned(),
        connection_id,
        prefix: Some(dummy_prefix()),
    }
}

} // verus!

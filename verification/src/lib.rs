//! A verified core for IBC light clients.
//!
//! The library keeps a trust-minimised view of counterparty chains for a
//! host chain: client states and consensus states by height, advanced by
//! signed headers, frozen on evidence of misbehaviour, and moved to new
//! revisions by upgrades. The handlers in `handler` read and write what the
//! host keeps through the traits in `context`; `store` is a host in memory.
//! Signatures and Merkle proofs are checked by the Tendermint and ICS-23
//! crates, behind the items of `block` and `commitment`.
//!
//! Beside the client core stand the class identifiers of non-fungible
//! tokens with their trace paths (`class`), and ready-made values for tests
//! of the connection handshake (`dummies`).

pub mod any;
pub mod block;
pub mod bytes;
pub mod class;
pub mod client;
pub mod client_state;
pub mod commitment;
pub mod consensus_state;
pub mod context;
pub mod dummies;
pub mod error;
pub mod event;
pub mod handler;
pub mod header;
pub mod height;
pub mod height_map;
pub mod identifier;
pub mod laws;
pub mod message;
pub mod misbehaviour;
pub mod mock;
pub mod path;
pub mod store;
pub mod text;
pub mod timestamp;
pub mod upgrade;

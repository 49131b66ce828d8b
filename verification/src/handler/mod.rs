//! The handlers of the client messages. Each message has a `validate`,
//! which only reads from the host, and an `execute`, which writes to it.

pub mod create_client;
pub mod update_client;
pub mod upgrade_client;

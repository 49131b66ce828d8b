[package]
name = "ibc_light_client"
version = "0.1.0"
edition = "2021"
publish = false

[dependencies]
tendermint-light-client-verifier = "=0.40.4"
tendermint = "=0.40.4"
tendermint-proto = "=0.40.4"
http = "=1.5.0"
ibc-proto = { version = "=0.52.0", default-features = false, features = ["std"] }
ics23 = "=0.12.0"
prost = "=0.13.5"
serde = { version = "=1.0.229", features = ["derive"] }

[dev-dependencies]
tendermint-testgen = "=0.40.4"

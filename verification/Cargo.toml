[package]
name = "ics07_tendermint"
version = "0.1.0"
edition = "2021"
publish = false

[dependencies]
ibc = "0.15.0"
ibc-proto = "0.18.0"
tendermint = "0.23.7"
tendermint-light-client-verifier = "0.23.7"
tendermint-proto = "0.23.7"
serde = { version = "1", features = ["derive"] }

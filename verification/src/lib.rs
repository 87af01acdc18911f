//! State of a light client that tracks a remote Tendermint chain, with the
//! checks that gate what a host chain may accept on the strength of it.
//!
//! Every function is verified against its contract. The few calls into the
//! `ibc`, `ibc-proto` and `tendermint` crates are made by small private
//! functions whose contracts are taken on trust and say so.

pub mod chain_id;
pub mod client_state;
pub mod duration;
pub mod error;
pub mod events;
pub mod height;
pub mod proof_specs;
pub mod raw;
pub mod timestamp;
pub mod trust_threshold;

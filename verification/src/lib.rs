//! Consensus-state snapshots for a Tendermint light client: the record type,
//! its protobuf wire codec with validation, and the projection from a
//! validated block header.

pub mod bytes;
pub mod consensus_state;
pub mod error;
pub mod raw;
pub mod timestamp;
pub mod types;
pub mod wire;

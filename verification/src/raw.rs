//! The wire-level message shape, mirroring the protobuf schema
//!
//! ```text
//! ConsensusState {
//!   1: Timestamp   timestamp            // seconds: int64, nanos: int32
//!   2: MerkleRoot  root                 // { 1: bytes hash }
//!   3: bytes       next_validators_hash
//! }
//! ```
//!
//! A raw message is unvalidated: fields may be absent and values may be out
//! of range. Validation happens in one place, when a raw message is turned
//! into a [`crate::consensus_state::ConsensusState`].

use vstd::prelude::*;

verus! {

/// Wire timestamp: seconds since the Unix epoch plus a nanosecond remainder,
/// both unvalidated at this layer.
#[derive(Clone, Copy, Debug, PartialEq, Eq, Structural)]
pub struct RawTimestamp {
    pub seconds: i64,
    pub nanos: i32,
}

/// Wire merkle-root wrapper message, carrying the root bytes verbatim.
#[derive(Clone, Debug, PartialEq, Eq)]
pub struct RawMerkleRoot {
    pub hash: Vec<u8>,
}

/// The unvalidated wire form of a consensus state. Either message field may
/// be absent on the wire; the bytes field defaults to empty.
#[derive(Clone, Debug, PartialEq, Eq)]
pub struct RawConsensusState {
    pub timestamp: Option<RawTimestamp>,
    pub root: Option<RawMerkleRoot>,
    pub next_validators_hash: Vec<u8>,
}

/// The mathematical model of a raw consensus-state message.
#[verifier::ext_equal]
pub struct RawConsensusStateView {
    pub timestamp: Option<RawTimestamp>,
    pub root: Option<Seq<u8>>,
    pub next_validators_hash: Seq<u8>,
}

impl View for RawConsensusState {
    type V = RawConsensusStateView;

    open spec fn view(&self) -> RawConsensusStateView {
        RawConsensusStateView {
            timestamp: self.timestamp,
            root: match self.root {
                Some(r) => Some(r.hash@),
                None => None,
            },
            next_validators_hash: self.next_validators_hash@,
        }
    }
}

} // verus!

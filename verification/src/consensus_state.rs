//! The consensus-state record: the canonical in-memory snapshot of a
//! validated counterparty block header, with its wire codec entry points,
//! the validating decoder, and the projection from a block header.
//!
//! A record is immutable once constructed: no operation here takes the
//! record by `&mut`, and every transformation returns a fresh value.
//! Validation happens in one place, at the wire boundary; everything after
//! that trusts the construction-time invariant [`ConsensusState::well_formed`].

use vstd::prelude::*;

use crate::bytes::copy_bytes;
use crate::error::{DecodeError, FieldName, TimestampError};
use crate::raw::{RawConsensusState, RawConsensusStateView, RawMerkleRoot, RawTimestamp};
use crate::timestamp::{Timestamp, MAX_UNIX_SECONDS, MIN_UNIX_SECONDS, NANOS_PER_SECOND};
use crate::types::{BlockHeader, CommitmentRoot, Header, Sha256Hash, SHA256_HASH_LENGTH};
use crate::wire::{
    dec_consensus_state,
    enc_consensus_state,
    encode_consensus_state,
    lemma_dec_enc_consensus_state,
    parse_consensus_state,
};

verus! {

/// A finalized consensus snapshot: the block time, the application-state
/// commitment root, and the hash of the validator set expected to sign the
/// next header. All three fields are mandatory and owned by value.
#[derive(Clone, Debug, PartialEq, Eq)]
pub struct ConsensusState {
    pub timestamp: Timestamp,
    pub root: CommitmentRoot,
    pub next_validators_hash: Sha256Hash,
}

/// The mathematical model of a record: two records are equal exactly when
/// all three fields are equal.
#[verifier::ext_equal]
pub struct ConsensusStateView {
    pub timestamp: Timestamp,
    pub root: Seq<u8>,
    pub next_validators_hash: Seq<u8>,
}

impl View for ConsensusState {
    type V = ConsensusStateView;

    open spec fn view(&self) -> ConsensusStateView {
        ConsensusStateView {
            timestamp: self.timestamp,
            root: self.root.bytes@,
            next_validators_hash: self.next_validators_hash.bytes@,
        }
    }
}

/// The construction-time invariant, stated over the model.
pub open spec fn view_well_formed(v: ConsensusStateView) -> bool {
    &&& v.timestamp.is_valid()
    &&& v.next_validators_hash.len() == SHA256_HASH_LENGTH
}

/// The raw message a record encodes to: every field present, verbatim.
pub open spec fn spec_to_raw(v: ConsensusStateView) -> RawConsensusStateView {
    RawConsensusStateView {
        timestamp: Some(RawTimestamp { seconds: v.timestamp.seconds, nanos: v.timestamp.nanos }),
        root: Some(v.root),
        next_validators_hash: v.next_validators_hash,
    }
}

/// What `encode` produces: a pure function of the record's model, so equal
/// records always encode to identical bytes.
pub open spec fn spec_encode(v: ConsensusStateView) -> Seq<u8> {
    enc_consensus_state(spec_to_raw(v))
}

/// The wire timestamp lies in the internal representation's range.
pub open spec fn raw_timestamp_in_range(t: RawTimestamp) -> bool {
    Timestamp { seconds: t.seconds, nanos: t.nanos }.is_valid()
}

/// The validation sequence applied to a decoded raw message, in order:
/// timestamp presence, timestamp range, root presence, validator-hash
/// length. The first failing check decides the error; all four passing
/// yield the record.
pub open spec fn spec_validate(m: RawConsensusStateView) -> Result<
    ConsensusStateView,
    DecodeError,
> {
    match m.timestamp {
        None => Err(DecodeError::MissingField(FieldName::Timestamp)),
        Some(t) => if !(0 <= t.nanos < NANOS_PER_SECOND) {
            Err(DecodeError::InvalidTimestamp(TimestampError::NanosOutOfRange))
        } else if !(MIN_UNIX_SECONDS <= t.seconds <= MAX_UNIX_SECONDS) {
            Err(DecodeError::InvalidTimestamp(TimestampError::SecondsOutOfRange))
        } else {
            match m.root {
                None => Err(DecodeError::MissingField(FieldName::CommitmentRoot)),
                Some(h) => if m.next_validators_hash.len() != SHA256_HASH_LENGTH {
                    Err(DecodeError::InvalidHash(crate::error::HashError::WrongLength))
                } else {
                    Ok(
                        ConsensusStateView {
                            timestamp: Timestamp { seconds: t.seconds, nanos: t.nanos },
                            root: h,
                            next_validators_hash: m.next_validators_hash,
                        },
                    )
                },
            }
        },
    }
}

/// What `decode` returns on any wire bytes: parse the canonical message,
/// then validate it.
pub open spec fn spec_decode(s: Seq<u8>) -> Result<ConsensusStateView, DecodeError> {
    match dec_consensus_state(s) {
        None => Err(DecodeError::Malformed),
        Some(m) => spec_validate(m),
    }
}

impl ConsensusState {
    /// All three fields hold what their invariants demand.
    pub open spec fn well_formed(&self) -> bool {
        view_well_formed(self@)
    }

    /// Assembles a record from already-validated parts, verbatim.
    pub fn new(root: CommitmentRoot, timestamp: Timestamp, next_validators_hash: Sha256Hash) -> (r:
        ConsensusState)
        requires
            timestamp.is_valid(),
            next_validators_hash.is_valid(),
        ensures
            r.timestamp == timestamp,
            r.root == root,
            r.next_validators_hash == next_validators_hash,
            r.well_formed(),
    {
        ConsensusState { timestamp, root, next_validators_hash }
    }

    /// The commitment root all later proofs are verified against.
    pub fn root(&self) -> (r: &CommitmentRoot)
        ensures
            r == &self.root,
    {
        &self.root
    }

    /// The block time of the snapshot.
    pub fn timestamp(&self) -> (r: Timestamp)
        ensures
            r == self.timestamp,
    {
        self.timestamp
    }

    /// The raw wire message for this record: every field present, bytes
    /// copied verbatim.
    pub fn to_raw(&self) -> (r: RawConsensusState)
        ensures
            r@ == spec_to_raw(self@),
    {
        RawConsensusState {
            timestamp: Some(
                RawTimestamp { seconds: self.timestamp.seconds, nanos: self.timestamp.nanos },
            ),
            root: Some(RawMerkleRoot { hash: copy_bytes(self.root.bytes.as_slice()) }),
            next_validators_hash: copy_bytes(self.next_validators_hash.bytes.as_slice()),
        }
    }

    /// Validates a raw wire message into a record. Returns the record
    /// exactly when the timestamp is present and in range, the root is
    /// present, and the validator hash is 32 bytes; otherwise returns the
    /// error of the first failing check, as [`spec_validate`] states.
    pub fn try_from_raw(raw: RawConsensusState) -> (r: Result<ConsensusState, DecodeError>)
        ensures
            match r {
                Ok(cs) => spec_validate(raw@) == Ok::<ConsensusStateView, DecodeError>(cs@)
                    && cs.well_formed(),
                Err(e) => spec_validate(raw@) == Err::<ConsensusStateView, DecodeError>(e),
            },
    {
        let t = match raw.timestamp {
            None => {
                return Err(DecodeError::MissingField(FieldName::Timestamp));
            },
            Some(t) => t,
        };
        let timestamp = match Timestamp::from_unix(t.seconds, t.nanos) {
            Err(e) => {
                return Err(DecodeError::InvalidTimestamp(e));
            },
            Ok(ts) => ts,
        };
        let root = match raw.root {
            None => {
                return Err(DecodeError::MissingField(FieldName::CommitmentRoot));
            },
            Some(r) => CommitmentRoot { bytes: r.hash },
        };
        let next_validators_hash = match Sha256Hash::from_bytes(
            raw.next_validators_hash.as_slice(),
        ) {
            Err(e) => {
                return Err(DecodeError::InvalidHash(e));
            },
            Ok(h) => h,
        };
        Ok(ConsensusState { timestamp, root, next_validators_hash })
    }

    /// Encodes this record to its canonical wire bytes. Pure: the bytes are
    /// a function of the record's model alone, so equal records encode
    /// identically on every call.
    pub fn encode_to_vec(&self) -> (r: Vec<u8>)
        ensures
            r@ == spec_encode(self@),
    {
        let raw = self.to_raw();
        encode_consensus_state(&raw)
    }

    /// Decodes wire bytes into a record: parses the canonical message and
    /// runs the validation sequence. Never partially commits — either all
    /// checks pass and a well-formed record is returned, or the first
    /// failure's error is.
    pub fn decode_vec(bytes: &[u8]) -> (r: Result<ConsensusState, DecodeError>)
        ensures
            match r {
                Ok(cs) => spec_decode(bytes@) == Ok::<ConsensusStateView, DecodeError>(cs@)
                    && cs.well_formed(),
                Err(e) => spec_decode(bytes@) == Err::<ConsensusStateView, DecodeError>(e),
            },
    {
        let raw = match parse_consensus_state(bytes) {
            Err(e) => {
                return Err(e);
            },
            Ok(m) => m,
        };
        Self::try_from_raw(raw)
    }

    /// Projects a consensus state from a validated block header: root from
    /// the application hash, time and next-validators hash copied verbatim.
    /// Total and infallible — a structural projection, nothing recomputed,
    /// no byte altered.
    pub fn from_block_header(header: BlockHeader) -> (r: ConsensusState)
        requires
            header.is_valid(),
        ensures
            r@.root == header.app_hash@,
            r@.timestamp == header.time,
            r@.next_validators_hash == header.next_validators_hash.bytes@,
            r.well_formed(),
    {
        ConsensusState {
            root: CommitmentRoot { bytes: header.app_hash },
            timestamp: header.time,
            next_validators_hash: header.next_validators_hash,
        }
    }

    /// Projects from the higher-level header wrapper by forwarding its
    /// embedded block header.
    pub fn from_header(header: Header) -> (r: ConsensusState)
        requires
            header.signed_header.header.is_valid(),
        ensures
            r@.root == header.signed_header.header.app_hash@,
            r@.timestamp == header.signed_header.header.time,
            r@.next_validators_hash == header.signed_header.header.next_validators_hash.bytes@,
            r.well_formed(),
    {
        Self::from_block_header(header.signed_header.header)
    }
}

// ---------------------------------------------------------------------------
// Laws
// ---------------------------------------------------------------------------

/// Round-trip law: every well-formed record (with a root short enough for a
/// wire length prefix) decodes from its own encoding, byte-exactly, to an
/// equal record.
pub proof fn lemma_round_trip(v: ConsensusStateView)
    requires
        view_well_formed(v),
        v.root.len() + 11 <= u64::MAX,
    ensures
        spec_decode(spec_encode(v)) == Ok::<ConsensusStateView, DecodeError>(v),
{
    lemma_dec_enc_consensus_state(spec_to_raw(v));
    let decoded = spec_validate(spec_to_raw(v));
    assert(decoded matches Ok(w) && w =~= v);
}

/// Determinism law: what `encode` produces depends on the record's value
/// alone, so two records with equal fields encode to identical bytes,
/// whenever and however often they are encoded.
pub proof fn lemma_encode_deterministic(a: ConsensusStateView, b: ConsensusStateView)
    requires
        a == b,
    ensures
        spec_encode(a) == spec_encode(b),
{
}

/// Rejection completeness, timestamp: wire messages without a timestamp
/// field decode to exactly `MissingField(Timestamp)`.
pub proof fn lemma_reject_missing_timestamp(m: RawConsensusStateView)
    requires
        m.timestamp is None,
        m.root matches Some(h) ==> h.len() + 11 <= u64::MAX,
        m.next_validators_hash.len() <= u64::MAX,
    ensures
        spec_decode(enc_consensus_state(m)) == Err::<ConsensusStateView, DecodeError>(
            DecodeError::MissingField(FieldName::Timestamp),
        ),
{
    lemma_dec_enc_consensus_state(m);
}

/// Rejection completeness, root: wire messages with an in-range timestamp
/// but no root field decode to exactly `MissingField(CommitmentRoot)`.
pub proof fn lemma_reject_missing_root(m: RawConsensusStateView)
    requires
        m.timestamp matches Some(t) && raw_timestamp_in_range(t),
        m.root is None,
        m.next_validators_hash.len() <= u64::MAX,
    ensures
        spec_decode(enc_consensus_state(m)) == Err::<ConsensusStateView, DecodeError>(
            DecodeError::MissingField(FieldName::CommitmentRoot),
        ),
{
    lemma_dec_enc_consensus_state(m);
}

/// Rejection completeness, validator hash: wire messages with an in-range
/// timestamp and a root, whose validator hash is not exactly 32 bytes,
/// decode to exactly `InvalidHash(WrongLength)` — never truncated or padded.
pub proof fn lemma_reject_wrong_hash_length(m: RawConsensusStateView)
    requires
        m.timestamp matches Some(t) && raw_timestamp_in_range(t),
        m.root matches Some(h) && h.len() + 11 <= u64::MAX,
        m.next_validators_hash.len() != SHA256_HASH_LENGTH,
        m.next_validators_hash.len() <= u64::MAX,
    ensures
        spec_decode(enc_consensus_state(m)) == Err::<ConsensusStateView, DecodeError>(
            DecodeError::InvalidHash(crate::error::HashError::WrongLength),
        ),
{
    lemma_dec_enc_consensus_state(m);
}

} // verus!

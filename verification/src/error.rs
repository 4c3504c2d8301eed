//! Errors returned when decoding a consensus state from wire bytes.
//!
//! Decoding is the single fallible operation of this crate: encoding and
//! header projection operate on already-validated values and cannot fail.

use vstd::prelude::*;

verus! {

/// Names of the required wire fields that decoding can report as absent.
#[derive(Clone, Copy, Debug, PartialEq, Eq, Structural)]
pub enum FieldName {
    Timestamp,
    CommitmentRoot,
}

/// Why a wire timestamp could not be converted to the internal representation.
#[derive(Clone, Copy, Debug, PartialEq, Eq, Structural)]
pub enum TimestampError {
    NanosOutOfRange,
    SecondsOutOfRange,
}

/// Why raw validator-hash bytes were rejected.
#[derive(Clone, Copy, Debug, PartialEq, Eq, Structural)]
pub enum HashError {
    WrongLength,
}

/// A decode failure. Every failure is reported to the caller; none is
/// swallowed, and no partially-populated record is ever produced.
#[derive(Clone, Copy, Debug, PartialEq, Eq, Structural)]
pub enum DecodeError {
    /// A required wire field was absent.
    MissingField(FieldName),
    /// The wire timestamp is outside the representable range.
    InvalidTimestamp(TimestampError),
    /// The validator hash bytes do not form a well-formed SHA-256 digest.
    InvalidHash(HashError),
    /// The bytes are not a well-formed wire message.
    Malformed,
}

impl FieldName {
    /// The field's name as it appears in the wire schema.
    pub fn as_str(&self) -> (r: &'static str)
        ensures
            self is Timestamp ==> r@ == "timestamp"@,
            self is CommitmentRoot ==> r@ == "commitment_root"@,
    {
        match self {
            FieldName::Timestamp => "timestamp",
            FieldName::CommitmentRoot => "commitment_root",
        }
    }
}

impl DecodeError {
    /// A human-readable description of the failure.
    pub fn message(&self) -> (r: &'static str)
        ensures
            matches!(self, DecodeError::MissingField(FieldName::Timestamp)) ==> r@
                == "missing timestamp"@,
            matches!(self, DecodeError::MissingField(FieldName::CommitmentRoot)) ==> r@
                == "missing commitment root"@,
            self is InvalidTimestamp ==> r@ == "invalid timestamp"@,
            self is InvalidHash ==> r@ == "invalid next validators hash"@,
            self is Malformed ==> r@ == "malformed wire bytes"@,
    {
        match self {
            DecodeError::MissingField(FieldName::Timestamp) => "missing timestamp",
            DecodeError::MissingField(FieldName::CommitmentRoot) => "missing commitment root",
            DecodeError::InvalidTimestamp(_) => "invalid timestamp",
            DecodeError::InvalidHash(_) => "invalid next validators hash",
            DecodeError::Malformed => "malformed wire bytes",
        }
    }
}

} // verus!

//! The value types that a consensus-state record owns: the commitment root,
//! the SHA-256 validator-set hash, and the validated block-header shape that
//! a record is projected from.

use vstd::prelude::*;

use crate::bytes::copy_bytes;
use crate::error::HashError;
use crate::timestamp::Timestamp;

verus! {

/// Length in bytes of the protocol-mandated validator-set digest (SHA-256).
pub const SHA256_HASH_LENGTH: usize = 32;

/// A committed commitment root: the accumulator digest over the counterparty
/// chain's application state against which later proofs are verified. The
/// bytes are opaque at this layer; deliberately, no structural validation is
/// applied beyond presence on the wire (an empty byte sequence is legal).
#[derive(Clone, Debug, PartialEq, Eq)]
pub struct CommitmentRoot {
    pub bytes: Vec<u8>,
}

impl CommitmentRoot {
    /// Wraps the given bytes verbatim.
    pub fn from_bytes(bytes: &[u8]) -> (r: CommitmentRoot)
        ensures
            r.bytes@ == bytes@,
    {
        CommitmentRoot { bytes: copy_bytes(bytes) }
    }

    /// Hands the raw bytes back, verbatim.
    pub fn into_vec(self) -> (r: Vec<u8>)
        ensures
            r@ == self.bytes@,
    {
        self.bytes
    }

    /// Borrows the raw bytes.
    pub fn as_bytes(&self) -> (r: &[u8])
        ensures
            r@ == self.bytes@,
    {
        self.bytes.as_slice()
    }
}

/// A SHA-256 digest committing to the validator set expected to sign the
/// next header. Well-formed exactly when it is 32 bytes long; construction
/// fails on any other length, never truncating or padding.
#[derive(Clone, Debug, PartialEq, Eq)]
pub struct Sha256Hash {
    pub bytes: Vec<u8>,
}

impl Sha256Hash {
    /// The digest has exactly the protocol-mandated length.
    pub open spec fn is_valid(self) -> bool {
        self.bytes@.len() == SHA256_HASH_LENGTH
    }

    /// Validating constructor: accepts exactly 32 bytes, verbatim.
    pub fn from_bytes(bytes: &[u8]) -> (r: Result<Sha256Hash, HashError>)
        ensures
            bytes@.len() == SHA256_HASH_LENGTH ==> (r matches Ok(h) && h.bytes@ == bytes@
                && h.is_valid()),
            bytes@.len() != SHA256_HASH_LENGTH ==> r == Err::<Sha256Hash, HashError>(
                HashError::WrongLength,
            ),
    {
        if bytes.len() == SHA256_HASH_LENGTH {
            Ok(Sha256Hash { bytes: copy_bytes(bytes) })
        } else {
            Err(HashError::WrongLength)
        }
    }

    /// Borrows the digest bytes.
    pub fn as_bytes(&self) -> (r: &[u8])
        ensures
            r@ == self.bytes@,
    {
        self.bytes.as_slice()
    }
}

/// The fields of a counterparty block header that a consensus state is
/// projected from. The header is assumed to have been validated by the
/// external header-verification component before it reaches this crate.
#[derive(Clone, Debug, PartialEq, Eq)]
pub struct BlockHeader {
    /// The application-state commitment at this header's height.
    pub app_hash: Vec<u8>,
    /// The block time.
    pub time: Timestamp,
    /// The hash of the validator set expected to sign the next header.
    pub next_validators_hash: Sha256Hash,
}

impl BlockHeader {
    /// A validated header carries an in-range block time and a well-formed
    /// next-validator-set digest.
    pub open spec fn is_valid(self) -> bool {
        &&& self.time.is_valid()
        &&& self.next_validators_hash.is_valid()
    }
}

/// A block header together with the commit that finalized it. The signature
/// material itself belongs to the external verification component and is not
/// represented here; this crate only forwards the embedded header.
#[derive(Clone, Debug, PartialEq, Eq)]
pub struct SignedHeader {
    pub header: BlockHeader,
}

/// The higher-level header wrapper submitted to a light client: a signed
/// header plus validator-set material held by external collaborators.
#[derive(Clone, Debug, PartialEq, Eq)]
pub struct Header {
    pub signed_header: SignedHeader,
}

} // verus!

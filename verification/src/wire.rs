//! The deterministic wire codec: canonical protobuf encoding of the raw
//! consensus-state message, and its decoder.
//!
//! Encoding follows canonical proto3 emission: fields in ascending field
//! order, scalar fields omitted at their default value, message fields
//! emitted when present. The decoder accepts exactly this canonical shape
//! and rejects anything else as malformed, so that decoding is a partial
//! inverse of encoding; the round-trip theorems are in
//! [`crate::consensus_state`].
//!
//! Every executable function here is tied by its contract to a spec-level
//! codec (`enc_*` / `dec_*`), and the round-trip lemmas are proved purely at
//! the spec level.

use vstd::prelude::*;

use vstd::arithmetic::div_mod::{
    lemma_fundamental_div_mod,
    lemma_multiply_divide_lt,
};
use vstd::arithmetic::mul::lemma_mul_inequality;

use crate::bytes::{copy_range, push_bytes};
use crate::error::DecodeError;
use crate::raw::{RawConsensusState, RawConsensusStateView, RawMerkleRoot, RawTimestamp};

verus! {

// Wire tags: (field number << 3) | wire type, with wire type 0 for varints
// and 2 for length-delimited fields.
/// ConsensusState field 1, the timestamp message.
pub const TAG_CS_TIMESTAMP: u8 = 0x0A;

/// ConsensusState field 2, the merkle-root message.
pub const TAG_CS_ROOT: u8 = 0x12;

/// ConsensusState field 3, the next-validators-hash bytes.
pub const TAG_CS_NEXT_VALIDATORS_HASH: u8 = 0x1A;

/// Timestamp field 1, the int64 seconds varint.
pub const TAG_TS_SECONDS: u8 = 0x08;

/// Timestamp field 2, the int32 nanos varint.
pub const TAG_TS_NANOS: u8 = 0x10;

/// MerkleRoot field 1, the hash bytes.
pub const TAG_ROOT_HASH: u8 = 0x0A;

// ---------------------------------------------------------------------------
// Base-128 varints
// ---------------------------------------------------------------------------

/// Canonical little-endian base-128 encoding of `v`, with the continuation
/// bit set on every byte but the last.
pub open spec fn enc_varint(v: u64) -> Seq<u8>
    decreases v,
{
    if v < 128 {
        seq![v as u8]
    } else {
        seq![(v % 128 + 128) as u8] + enc_varint(v / 128)
    }
}

/// Reads a varint from the front of `s`: the unbounded value and the number
/// of bytes consumed, or `None` when `s` ends inside the varint.
pub open spec fn dec_varint_raw(s: Seq<u8>) -> Option<(int, int)>
    decreases s.len(),
{
    if s.len() == 0 {
        None
    } else if s[0] < 128 {
        Some((s[0] as int, 1))
    } else {
        match dec_varint_raw(s.skip(1)) {
            None => None,
            Some(p) => Some((s[0] - 128 + 128 * p.0, p.1 + 1)),
        }
    }
}

/// Reads a `u64` varint from the front of `s`: rejects values that do not
/// fit in 64 bits and encodings longer than 10 bytes.
pub open spec fn dec_varint(s: Seq<u8>) -> Option<(u64, int)> {
    match dec_varint_raw(s) {
        None => None,
        Some(p) => if p.0 <= u64::MAX && p.1 <= 10 {
            Some((p.0 as u64, p.1))
        } else {
            None
        },
    }
}

/// 128^k, the number of values a k-digit base-128 numeral can take.
spec fn pow128(k: nat) -> int
    decreases k,
{
    if k == 0 {
        1
    } else {
        128 * pow128((k - 1) as nat)
    }
}

proof fn lemma_enc_varint_len_bounded(v: u64, k: nat)
    requires
        1 <= k,
        (v as int) < pow128(k),
    ensures
        enc_varint(v).len() <= k,
    decreases k,
{
    if v >= 128 {
        assert(pow128(1) == 128 * pow128(0));
        assert(k != 1);
        assert(pow128(k) == 128 * pow128((k - 1) as nat));
        lemma_multiply_divide_lt(v as int, 128, pow128((k - 1) as nat));
        assert(v / 128 < v) by (nonlinear_arith)
            requires
                v >= 128,
        ;
        lemma_enc_varint_len_bounded(v / 128, (k - 1) as nat);
    }
}

/// Every `u64` fits in at most 10 varint bytes.
pub proof fn lemma_enc_varint_len(v: u64)
    ensures
        1 <= enc_varint(v).len() <= 10,
{
    reveal_with_fuel(pow128, 11);
    assert(pow128(10) > u64::MAX);
    lemma_enc_varint_len_bounded(v, 10);
}

proof fn lemma_dec_varint_raw_nonneg(s: Seq<u8>)
    ensures
        dec_varint_raw(s) matches Some(p) ==> p.0 >= 0 && p.1 >= 1,
    decreases s.len(),
{
    if s.len() > 0 && s[0] >= 128 {
        lemma_dec_varint_raw_nonneg(s.skip(1));
    }
}

proof fn lemma_dec_enc_varint_raw(v: u64, rest: Seq<u8>)
    ensures
        dec_varint_raw(enc_varint(v) + rest) == Some(
            ((v as int), (enc_varint(v).len() as int)),
        ),
    decreases v,
{
    let s = enc_varint(v) + rest;
    if v < 128 {
        assert(s[0] == v as u8);
    } else {
        assert(s[0] == (v % 128 + 128) as u8);
        assert(s[0] >= 128);
        assert(s.skip(1) =~= enc_varint(v / 128) + rest);
        assert(v / 128 < v) by (nonlinear_arith)
            requires
                v >= 128,
        ;
        lemma_dec_enc_varint_raw(v / 128, rest);
        lemma_fundamental_div_mod(v as int, 128);
        assert(s[0] - 128 + 128 * ((v / 128) as int) == v as int);
    }
}

/// Round trip: a canonical varint followed by anything decodes to exactly
/// the encoded value, consuming exactly the varint's bytes.
pub proof fn lemma_dec_enc_varint(v: u64, rest: Seq<u8>)
    ensures
        dec_varint(enc_varint(v) + rest) == Some((v, enc_varint(v).len() as int)),
{
    lemma_dec_enc_varint_raw(v, rest);
    lemma_enc_varint_len(v);
}

/// Appends the canonical varint encoding of `v` to `out`.
pub fn encode_varint(out: &mut Vec<u8>, v: u64)
    ensures
        final(out)@ == old(out)@ + enc_varint(v),
{
    let ghost orig: Seq<u8> = out@;
    let mut cur: u64 = v;
    while cur >= 128
        invariant
            orig + enc_varint(v) == out@ + enc_varint(cur),
        decreases cur,
    {
        let b: u8 = ((cur % 128) + 128) as u8;
        proof {
            assert(enc_varint(cur) == seq![b] + enc_varint(cur / 128));
            assert(out@ + (seq![b] + enc_varint(cur / 128)) =~= (out@ + seq![b]) + enc_varint(
                cur / 128,
            ));
            assert(cur / 128 < cur) by (nonlinear_arith)
                requires
                    cur >= 128,
            ;
        }
        out.push(b);
        cur = cur / 128;
    }
    proof {
        assert(enc_varint(cur) == seq![cur as u8]);
        assert(out@ + (seq![cur as u8]) =~= (out@ + seq![cur as u8]));
    }
    out.push(cur as u8);
}

/// Reads a varint at `pos`; returns the value and the position just past it.
pub fn parse_varint(s: &[u8], pos: usize) -> (r: Option<(u64, usize)>)
    requires
        pos <= s@.len(),
    ensures
        match r {
            Some(p) => {
                &&& dec_varint(s@.skip(pos as int)) == Some((p.0, p.1 - pos as int))
                &&& pos < p.1 <= s@.len()
            },
            None => dec_varint(s@.skip(pos as int)) is None,
        },
    decreases s@.len() - pos,
{
    let ghost t = s@.skip(pos as int);
    if pos == s.len() {
        return None;
    }
    let b = s[pos];
    proof {
        assert(t[0] == s@[pos as int]);
    }
    if b < 128 {
        return Some((b as u64, pos + 1));
    }
    let rec = parse_varint(s, pos + 1);
    proof {
        assert(t.skip(1) =~= s@.skip(pos as int + 1));
    }
    match rec {
        None => {
            proof {
                match dec_varint_raw(t.skip(1)) {
                    None => {
                        assert(dec_varint_raw(t) is None);
                    },
                    Some(p) => {
                        assert(p.0 > u64::MAX || p.1 > 10);
                        assert(dec_varint_raw(t) == Some((t[0] - 128 + 128 * p.0, p.1 + 1)));
                        if p.0 > u64::MAX {
                            assert(t[0] - 128 + 128 * p.0 > u64::MAX);
                        }
                    },
                }
            }
            None
        },
        Some((v, np)) => {
            let low: u64 = (b - 128) as u64;
            proof {
                lemma_dec_varint_raw_nonneg(t.skip(1));
                assert(dec_varint_raw(t.skip(1)) == Some((v as int, np - pos - 1)));
                assert(dec_varint_raw(t) == Some((low + 128 * (v as int), np - pos as int)));
            }
            if np - pos > 10 {
                None
            } else if v > (u64::MAX - low) / 128 {
                proof {
                    let q = ((u64::MAX - low) as int) / 128;
                    lemma_fundamental_div_mod((u64::MAX - low) as int, 128);
                    lemma_mul_inequality(q + 1, v as int, 128);
                    assert(128 * (v as int) >= 128 * (q + 1)) by (nonlinear_arith)
                        requires
                            v as int >= q + 1,
                    ;
                    assert(low + 128 * (v as int) > u64::MAX);
                }
                None
            } else {
                proof {
                    let q = ((u64::MAX - low) as int) / 128;
                    lemma_fundamental_div_mod((u64::MAX - low) as int, 128);
                    assert(128 * (v as int) <= 128 * q) by (nonlinear_arith)
                        requires
                            v as int <= q,
                    ;
                    assert(low + 128 * (v as int) <= u64::MAX);
                }
                Some((low + 128 * v, np))
            }
        },
    }
}

// ---------------------------------------------------------------------------
// Two's-complement shuttling between i64 and the u64 varint payload
// ---------------------------------------------------------------------------

/// The signed value whose 64-bit two's-complement pattern is `v`.
pub open spec fn spec_i64_from_bits(v: u64) -> i64 {
    if v <= i64::MAX as u64 {
        v as i64
    } else {
        ((v as int) - 0x1_0000_0000_0000_0000) as i64
    }
}

/// The 64-bit two's-complement pattern of `x`, as protobuf encodes signed
/// integers (negative values sign-extended to 64 bits).
pub open spec fn spec_u64_from_i64_bits(x: i64) -> u64 {
    if x >= 0 {
        x as u64
    } else {
        ((x as int) + 0x1_0000_0000_0000_0000) as u64
    }
}

/// The two's-complement shuttle is lossless.
pub proof fn lemma_i64_bits_round_trip(x: i64)
    ensures
        spec_i64_from_bits(spec_u64_from_i64_bits(x)) == x,
{
}

/// Executable form of [`spec_i64_from_bits`].
pub fn i64_from_bits(v: u64) -> (r: i64)
    ensures
        r == spec_i64_from_bits(v),
{
    if v <= 0x7FFF_FFFF_FFFF_FFFF {
        v as i64
    } else {
        let d: u64 = u64::MAX - v;
        -(d as i64) - 1
    }
}

/// Executable form of [`spec_u64_from_i64_bits`].
pub fn u64_from_i64_bits(x: i64) -> (r: u64)
    ensures
        r == spec_u64_from_i64_bits(x),
{
    if x >= 0 {
        x as u64
    } else {
        let d: i64 = -1 - x;
        u64::MAX - (d as u64)
    }
}

// ---------------------------------------------------------------------------
// Optional fields at the front of a byte sequence
// ---------------------------------------------------------------------------

/// Outcome of looking for one length-delimited field at the front of a byte
/// sequence: not there, wire-malformed, or found with its body and the bytes
/// that follow the field.
#[verifier::ext_equal]
pub enum FieldParse {
    Absent,
    Invalid,
    Found(Seq<u8>, Seq<u8>),
}

/// Outcome of looking for one varint field at the front of a byte sequence.
#[verifier::ext_equal]
pub enum VarintFieldParse {
    Absent,
    Invalid,
    Found(u64, Seq<u8>),
}

/// Reads an optional length-delimited field with the given tag.
pub open spec fn dec_field(s: Seq<u8>, tag: u8) -> FieldParse {
    if s.len() == 0 || s[0] != tag {
        FieldParse::Absent
    } else {
        match dec_varint(s.skip(1)) {
            None => FieldParse::Invalid,
            Some(p) => if p.0 <= s.len() - 1 - p.1 {
                FieldParse::Found(
                    s.subrange(1 + p.1, 1 + p.1 + p.0),
                    s.skip(1 + p.1 + p.0),
                )
            } else {
                FieldParse::Invalid
            },
        }
    }
}

/// Reads an optional varint field with the given tag.
pub open spec fn dec_varint_field(s: Seq<u8>, tag: u8) -> VarintFieldParse {
    if s.len() == 0 || s[0] != tag {
        VarintFieldParse::Absent
    } else {
        match dec_varint(s.skip(1)) {
            None => VarintFieldParse::Invalid,
            Some(p) => VarintFieldParse::Found(p.0, s.skip(1 + p.1)),
        }
    }
}

/// One varint field: tag byte, then the value.
pub open spec fn enc_varint_field(tag: u8, v: u64) -> Seq<u8> {
    seq![tag] + enc_varint(v)
}

/// One length-delimited field: tag byte, body length, body.
pub open spec fn enc_len_field(tag: u8, body: Seq<u8>) -> Seq<u8> {
    seq![tag] + enc_varint(body.len() as u64) + body
}

/// Round trip: an encoded length-delimited field followed by anything
/// parses to exactly its body and the following bytes.
pub proof fn lemma_dec_enc_len_field(tag: u8, body: Seq<u8>, rest: Seq<u8>)
    requires
        body.len() <= u64::MAX,
    ensures
        dec_field(enc_len_field(tag, body) + rest, tag) == FieldParse::Found(body, rest),
{
    let lenv: u64 = body.len() as u64;
    let s = enc_len_field(tag, body) + rest;
    assert(s[0] == tag);
    assert(s.skip(1) =~= enc_varint(lenv) + (body + rest));
    lemma_dec_enc_varint(lenv, body + rest);
    let k = enc_varint(lenv).len() as int;
    assert(dec_varint(s.skip(1)) == Some((lenv, k)));
    assert(s.len() == 1 + k + body.len() + rest.len());
    assert(s.subrange(1 + k, 1 + k + lenv) =~= body);
    assert(s.skip(1 + k + lenv) =~= rest);
}

/// Round trip for a varint field followed by anything.
pub proof fn lemma_dec_enc_varint_field(tag: u8, v: u64, rest: Seq<u8>)
    ensures
        dec_varint_field(enc_varint_field(tag, v) + rest, tag) == VarintFieldParse::Found(v, rest),
{
    let s = enc_varint_field(tag, v) + rest;
    assert(s[0] == tag);
    assert(s.skip(1) =~= enc_varint(v) + rest);
    lemma_dec_enc_varint(v, rest);
    assert(s.skip(1 + enc_varint(v).len() as int) =~= rest);
}

/// Result of looking for one length-delimited field at `pos`: the body is
/// `s[bs..be]` and parsing continues at `be`.
pub enum FieldSlice {
    Absent,
    Invalid,
    Found(usize, usize),
}

/// Result of looking for one varint field at `pos`.
pub enum VarintSlice {
    Absent,
    Invalid,
    Found(u64, usize),
}

/// Looks for a length-delimited field with the given tag at `pos`.
pub fn parse_field(s: &[u8], pos: usize, tag: u8) -> (r: FieldSlice)
    requires
        pos <= s@.len(),
    ensures
        match r {
            FieldSlice::Absent => dec_field(s@.skip(pos as int), tag) is Absent,
            FieldSlice::Invalid => dec_field(s@.skip(pos as int), tag) is Invalid,
            FieldSlice::Found(bs, be) => {
                &&& pos < bs <= be <= s@.len()
                &&& dec_field(s@.skip(pos as int), tag) == FieldParse::Found(
                    s@.subrange(bs as int, be as int),
                    s@.skip(be as int),
                )
            },
        },
{
    let ghost t = s@.skip(pos as int);
    if pos == s.len() || s[pos] != tag {
        proof {
            if pos < s@.len() {
                assert(t[0] == s@[pos as int]);
            }
        }
        return FieldSlice::Absent;
    }
    proof {
        assert(t[0] == s@[pos as int]);
        assert(t.skip(1) =~= s@.skip(pos as int + 1));
    }
    match parse_varint(s, pos + 1) {
        None => FieldSlice::Invalid,
        Some((len, np)) => {
            let ghost k = np - pos - 1;
            let rem: usize = s.len() - np;
            if len <= rem as u64 {
                let bs = np;
                let be = np + (len as usize);
                proof {
                    assert(t.subrange(1 + k, 1 + k + len) =~= s@.subrange(bs as int, be as int));
                    assert(t.skip(1 + k + len) =~= s@.skip(be as int));
                }
                FieldSlice::Found(bs, be)
            } else {
                FieldSlice::Invalid
            }
        },
    }
}

/// Looks for a varint field with the given tag at `pos`.
pub fn parse_varint_field(s: &[u8], pos: usize, tag: u8) -> (r: VarintSlice)
    requires
        pos <= s@.len(),
    ensures
        match r {
            VarintSlice::Absent => dec_varint_field(s@.skip(pos as int), tag) is Absent,
            VarintSlice::Invalid => dec_varint_field(s@.skip(pos as int), tag) is Invalid,
            VarintSlice::Found(v, np) => {
                &&& pos < np <= s@.len()
                &&& dec_varint_field(s@.skip(pos as int), tag) == VarintFieldParse::Found(
                    v,
                    s@.skip(np as int),
                )
            },
        },
{
    let ghost t = s@.skip(pos as int);
    if pos == s.len() || s[pos] != tag {
        proof {
            if pos < s@.len() {
                assert(t[0] == s@[pos as int]);
            }
        }
        return VarintSlice::Absent;
    }
    proof {
        assert(t[0] == s@[pos as int]);
        assert(t.skip(1) =~= s@.skip(pos as int + 1));
    }
    match parse_varint(s, pos + 1) {
        None => VarintSlice::Invalid,
        Some((v, np)) => {
            proof {
                assert(t.skip(1 + (np - pos - 1)) =~= s@.skip(np as int));
            }
            VarintSlice::Found(v, np)
        },
    }
}

// ---------------------------------------------------------------------------
// The Timestamp and MerkleRoot sub-messages
// ---------------------------------------------------------------------------

/// Canonical body of the wire Timestamp message: int64 seconds then int32
/// nanos, each omitted at zero, negative values sign-extended to 64 bits.
pub open spec fn enc_timestamp_body(t: RawTimestamp) -> Seq<u8> {
    (if t.seconds != 0 {
        enc_varint_field(TAG_TS_SECONDS, spec_u64_from_i64_bits(t.seconds))
    } else {
        Seq::<u8>::empty()
    }) + (if t.nanos != 0 {
        enc_varint_field(TAG_TS_NANOS, spec_u64_from_i64_bits(t.nanos as i64))
    } else {
        Seq::<u8>::empty()
    })
}

/// Reads the nanos field and the end of a Timestamp body, the seconds value
/// already in hand.
pub open spec fn dec_timestamp_nanos(s: Seq<u8>, seconds: i64) -> Option<RawTimestamp> {
    match dec_varint_field(s, TAG_TS_NANOS) {
        VarintFieldParse::Invalid => None,
        VarintFieldParse::Absent => if s.len() == 0 {
            Some(RawTimestamp { seconds, nanos: 0 })
        } else {
            None
        },
        VarintFieldParse::Found(v, rest) => {
            let sv = spec_i64_from_bits(v);
            if i32::MIN <= sv <= i32::MAX && rest.len() == 0 {
                Some(RawTimestamp { seconds, nanos: sv as i32 })
            } else {
                None
            }
        },
    }
}

/// Reads a whole Timestamp message body.
pub open spec fn dec_timestamp_body(s: Seq<u8>) -> Option<RawTimestamp> {
    match dec_varint_field(s, TAG_TS_SECONDS) {
        VarintFieldParse::Invalid => None,
        VarintFieldParse::Absent => dec_timestamp_nanos(s, 0),
        VarintFieldParse::Found(v, rest) => dec_timestamp_nanos(rest, spec_i64_from_bits(v)),
    }
}

/// Canonical body of the wire MerkleRoot message: the hash bytes, omitted
/// when empty.
pub open spec fn enc_merkle_root_body(hash: Seq<u8>) -> Seq<u8> {
    if hash.len() > 0 {
        enc_len_field(TAG_ROOT_HASH, hash)
    } else {
        Seq::<u8>::empty()
    }
}

/// Reads a whole MerkleRoot message body, yielding the hash bytes.
pub open spec fn dec_merkle_root_body(s: Seq<u8>) -> Option<Seq<u8>> {
    match dec_field(s, TAG_ROOT_HASH) {
        FieldParse::Invalid => None,
        FieldParse::Absent => if s.len() == 0 {
            Some(Seq::<u8>::empty())
        } else {
            None
        },
        FieldParse::Found(body, rest) => if rest.len() == 0 {
            Some(body)
        } else {
            None
        },
    }
}

/// Round trip for the Timestamp body: every (seconds, nanos) pair survives.
pub proof fn lemma_dec_enc_timestamp_body(t: RawTimestamp)
    ensures
        dec_timestamp_body(enc_timestamp_body(t)) == Some(t),
{
    let s = enc_timestamp_body(t);
    let nanos_part = if t.nanos != 0 {
        enc_varint_field(TAG_TS_NANOS, spec_u64_from_i64_bits(t.nanos as i64))
    } else {
        Seq::<u8>::empty()
    };
    if t.seconds != 0 {
        assert(s =~= enc_varint_field(TAG_TS_SECONDS, spec_u64_from_i64_bits(t.seconds))
            + nanos_part);
        lemma_dec_enc_varint_field(TAG_TS_SECONDS, spec_u64_from_i64_bits(t.seconds), nanos_part);
        lemma_i64_bits_round_trip(t.seconds);
        assert(dec_timestamp_body(s) == dec_timestamp_nanos(nanos_part, t.seconds));
    } else {
        assert(s =~= nanos_part);
        if t.nanos != 0 {
            assert(s[0] == TAG_TS_NANOS);
        }
        assert(dec_varint_field(s, TAG_TS_SECONDS) is Absent);
        assert(dec_timestamp_body(s) == dec_timestamp_nanos(nanos_part, t.seconds));
    }
    if t.nanos != 0 {
        lemma_dec_enc_varint_field(
            TAG_TS_NANOS,
            spec_u64_from_i64_bits(t.nanos as i64),
            Seq::<u8>::empty(),
        );
        assert(enc_varint_field(TAG_TS_NANOS, spec_u64_from_i64_bits(t.nanos as i64))
            + Seq::<u8>::empty() =~= nanos_part);
        lemma_i64_bits_round_trip(t.nanos as i64);
        assert(dec_timestamp_nanos(nanos_part, t.seconds) == Some(t));
    } else {
        assert(nanos_part.len() == 0);
        assert(dec_timestamp_nanos(nanos_part, t.seconds) == Some(t));
    }
}

/// Round trip for the MerkleRoot body: every hash byte sequence survives,
/// the empty one included.
pub proof fn lemma_dec_enc_merkle_root_body(hash: Seq<u8>)
    requires
        hash.len() <= u64::MAX,
    ensures
        dec_merkle_root_body(enc_merkle_root_body(hash)) == Some(hash),
{
    if hash.len() > 0 {
        lemma_dec_enc_len_field(TAG_ROOT_HASH, hash, Seq::<u8>::empty());
        assert(enc_len_field(TAG_ROOT_HASH, hash) + Seq::<u8>::empty() =~= enc_len_field(
            TAG_ROOT_HASH,
            hash,
        ));
    } else {
        assert(Seq::<u8>::empty() =~= hash);
    }
}

/// Parses a copied-out Timestamp message body.
pub fn parse_timestamp_body(s: &[u8]) -> (r: Option<RawTimestamp>)
    ensures
        r == dec_timestamp_body(s@),
{
    proof {
        assert(s@.skip(0) =~= s@);
    }
    let (seconds, pos): (i64, usize) = match parse_varint_field(s, 0, TAG_TS_SECONDS) {
        VarintSlice::Invalid => {
            return None;
        },
        VarintSlice::Absent => (0, 0),
        VarintSlice::Found(v, np) => (i64_from_bits(v), np),
    };
    assert(dec_timestamp_body(s@) == dec_timestamp_nanos(s@.skip(pos as int), seconds));
    match parse_varint_field(s, pos, TAG_TS_NANOS) {
        VarintSlice::Invalid => None,
        VarintSlice::Absent => if pos == s.len() {
            Some(RawTimestamp { seconds, nanos: 0 })
        } else {
            None
        },
        VarintSlice::Found(v, np) => {
            let sv = i64_from_bits(v);
            if i32::MIN as i64 <= sv && sv <= i32::MAX as i64 && np == s.len() {
                Some(RawTimestamp { seconds, nanos: sv as i32 })
            } else {
                None
            }
        },
    }
}

/// Parses a copied-out MerkleRoot message body.
pub fn parse_merkle_root_body(s: &[u8]) -> (r: Option<Vec<u8>>)
    ensures
        match r {
            Some(h) => dec_merkle_root_body(s@) == Some(h@),
            None => dec_merkle_root_body(s@) is None,
        },
{
    proof {
        assert(s@.skip(0) =~= s@);
    }
    match parse_field(s, 0, TAG_ROOT_HASH) {
        FieldSlice::Invalid => None,
        FieldSlice::Absent => if s.len() == 0 {
            Some(Vec::new())
        } else {
            None
        },
        FieldSlice::Found(bs, be) => {
            if be == s.len() {
                Some(copy_range(s, bs, be))
            } else {
                None
            }
        },
    }
}

// ---------------------------------------------------------------------------
// The ConsensusState message
// ---------------------------------------------------------------------------

/// Canonical encoding of a raw consensus-state message: timestamp, root and
/// next-validators-hash fields in field order, message fields emitted when
/// present, the bytes field omitted when empty.
pub open spec fn enc_consensus_state(m: RawConsensusStateView) -> Seq<u8> {
    (match m.timestamp {
        Some(t) => enc_len_field(TAG_CS_TIMESTAMP, enc_timestamp_body(t)),
        None => Seq::<u8>::empty(),
    }) + (match m.root {
        Some(h) => enc_len_field(TAG_CS_ROOT, enc_merkle_root_body(h)),
        None => Seq::<u8>::empty(),
    }) + (if m.next_validators_hash.len() > 0 {
        enc_len_field(TAG_CS_NEXT_VALIDATORS_HASH, m.next_validators_hash)
    } else {
        Seq::<u8>::empty()
    })
}

/// Reads the final, bytes-typed field and the end of the message.
pub open spec fn dec_cs_after_root(
    s: Seq<u8>,
    timestamp: Option<RawTimestamp>,
    root: Option<Seq<u8>>,
) -> Option<RawConsensusStateView> {
    match dec_field(s, TAG_CS_NEXT_VALIDATORS_HASH) {
        FieldParse::Invalid => None,
        FieldParse::Absent => if s.len() == 0 {
            Some(
                RawConsensusStateView {
                    timestamp,
                    root,
                    next_validators_hash: Seq::<u8>::empty(),
                },
            )
        } else {
            None
        },
        FieldParse::Found(body, rest) => if rest.len() == 0 {
            Some(RawConsensusStateView { timestamp, root, next_validators_hash: body })
        } else {
            None
        },
    }
}

/// Reads the root field onward, the timestamp already in hand.
pub open spec fn dec_cs_after_timestamp(
    s: Seq<u8>,
    timestamp: Option<RawTimestamp>,
) -> Option<RawConsensusStateView> {
    match dec_field(s, TAG_CS_ROOT) {
        FieldParse::Invalid => None,
        FieldParse::Absent => dec_cs_after_root(s, timestamp, None),
        FieldParse::Found(body, rest) => match dec_merkle_root_body(body) {
            None => None,
            Some(h) => dec_cs_after_root(rest, timestamp, Some(h)),
        },
    }
}

/// Reads a whole consensus-state message in canonical field order; `None`
/// is a malformed message.
pub open spec fn dec_consensus_state(s: Seq<u8>) -> Option<RawConsensusStateView> {
    match dec_field(s, TAG_CS_TIMESTAMP) {
        FieldParse::Invalid => None,
        FieldParse::Absent => dec_cs_after_timestamp(s, None),
        FieldParse::Found(body, rest) => match dec_timestamp_body(body) {
            None => None,
            Some(t) => dec_cs_after_timestamp(rest, Some(t)),
        },
    }
}

/// Round trip at the message level: every raw message whose byte fields are
/// of representable length decodes from its own encoding, field absences
/// included.
pub proof fn lemma_dec_enc_consensus_state(m: RawConsensusStateView)
    requires
        m.root matches Some(h) ==> h.len() + 11 <= u64::MAX,
        m.next_validators_hash.len() <= u64::MAX,
    ensures
        dec_consensus_state(enc_consensus_state(m)) == Some(m),
{
    let f1 = match m.timestamp {
        Some(t) => enc_len_field(TAG_CS_TIMESTAMP, enc_timestamp_body(t)),
        None => Seq::<u8>::empty(),
    };
    let f2 = match m.root {
        Some(h) => enc_len_field(TAG_CS_ROOT, enc_merkle_root_body(h)),
        None => Seq::<u8>::empty(),
    };
    let f3 = if m.next_validators_hash.len() > 0 {
        enc_len_field(TAG_CS_NEXT_VALIDATORS_HASH, m.next_validators_hash)
    } else {
        Seq::<u8>::empty()
    };
    let s = enc_consensus_state(m);
    assert(s =~= f1 + (f2 + f3));

    // Field 1: the timestamp message.
    match m.timestamp {
        Some(t) => {
            lemma_enc_varint_len(spec_u64_from_i64_bits(t.seconds));
            lemma_enc_varint_len(spec_u64_from_i64_bits(t.nanos as i64));
            assert(enc_timestamp_body(t).len() <= 22);
            lemma_dec_enc_len_field(TAG_CS_TIMESTAMP, enc_timestamp_body(t), f2 + f3);
            lemma_dec_enc_timestamp_body(t);
            assert(dec_consensus_state(s) == dec_cs_after_timestamp(f2 + f3, m.timestamp));
        },
        None => {
            assert(s =~= f2 + f3);
            if f2.len() > 0 {
                assert(s[0] == TAG_CS_ROOT);
            } else if f3.len() > 0 {
                assert(s =~= f3);
                assert(s[0] == TAG_CS_NEXT_VALIDATORS_HASH);
            }
            assert(dec_field(s, TAG_CS_TIMESTAMP) is Absent);
            assert(dec_consensus_state(s) == dec_cs_after_timestamp(f2 + f3, m.timestamp));
        },
    }

    // Field 2: the merkle-root message.
    let s2 = f2 + f3;
    match m.root {
        Some(h) => {
            lemma_enc_varint_len((h.len() as u64));
            assert(enc_merkle_root_body(h).len() <= u64::MAX);
            lemma_dec_enc_len_field(TAG_CS_ROOT, enc_merkle_root_body(h), f3);
            lemma_dec_enc_merkle_root_body(h);
            assert(dec_cs_after_timestamp(s2, m.timestamp) == dec_cs_after_root(
                f3,
                m.timestamp,
                m.root,
            ));
        },
        None => {
            assert(s2 =~= f3);
            if f3.len() > 0 {
                assert(s2[0] == TAG_CS_NEXT_VALIDATORS_HASH);
            }
            assert(dec_field(s2, TAG_CS_ROOT) is Absent);
            assert(dec_cs_after_timestamp(s2, m.timestamp) == dec_cs_after_root(
                f3,
                m.timestamp,
                m.root,
            ));
        },
    }

    // Field 3: the validator-hash bytes, then the end of the message.
    if m.next_validators_hash.len() > 0 {
        lemma_dec_enc_len_field(
            TAG_CS_NEXT_VALIDATORS_HASH,
            m.next_validators_hash,
            Seq::<u8>::empty(),
        );
        assert(enc_len_field(TAG_CS_NEXT_VALIDATORS_HASH, m.next_validators_hash)
            + Seq::<u8>::empty() =~= f3);
        assert(dec_cs_after_root(f3, m.timestamp, m.root) matches Some(v) && v =~= m);
    } else {
        assert(f3.len() == 0);
        assert(dec_cs_after_root(f3, m.timestamp, m.root) matches Some(v) && v =~= m);
    }
}

/// Parses wire bytes into a raw consensus-state message; rejects anything
/// that is not one canonical message.
pub fn parse_consensus_state(s: &[u8]) -> (r: Result<RawConsensusState, DecodeError>)
    ensures
        match r {
            Ok(m) => dec_consensus_state(s@) == Some(m@),
            Err(e) => dec_consensus_state(s@) is None && e == DecodeError::Malformed,
        },
{
    proof {
        assert(s@.skip(0) =~= s@);
    }
    let (timestamp, pos1): (Option<RawTimestamp>, usize) = match parse_field(
        s,
        0,
        TAG_CS_TIMESTAMP,
    ) {
        FieldSlice::Invalid => {
            return Err(DecodeError::Malformed);
        },
        FieldSlice::Absent => (None, 0),
        FieldSlice::Found(bs, be) => {
            let body = copy_range(s, bs, be);
            match parse_timestamp_body(body.as_slice()) {
                None => {
                    return Err(DecodeError::Malformed);
                },
                Some(t) => (Some(t), be),
            }
        },
    };
    assert(dec_consensus_state(s@) == dec_cs_after_timestamp(s@.skip(pos1 as int), timestamp));
    let (root, pos2): (Option<RawMerkleRoot>, usize) = match parse_field(s, pos1, TAG_CS_ROOT) {
        FieldSlice::Invalid => {
            return Err(DecodeError::Malformed);
        },
        FieldSlice::Absent => (None, pos1),
        FieldSlice::Found(bs, be) => {
            let body = copy_range(s, bs, be);
            match parse_merkle_root_body(body.as_slice()) {
                None => {
                    return Err(DecodeError::Malformed);
                },
                Some(h) => (Some(RawMerkleRoot { hash: h }), be),
            }
        },
    };
    let ghost rootv: Option<Seq<u8>> = match &root {
        Some(r) => Some(r.hash@),
        None => None,
    };
    assert(dec_cs_after_timestamp(s@.skip(pos1 as int), timestamp) == dec_cs_after_root(
        s@.skip(pos2 as int),
        timestamp,
        rootv,
    ));
    match parse_field(s, pos2, TAG_CS_NEXT_VALIDATORS_HASH) {
        FieldSlice::Invalid => Err(DecodeError::Malformed),
        FieldSlice::Absent => {
            if pos2 == s.len() {
                let m = RawConsensusState { timestamp, root, next_validators_hash: Vec::new() };
                assert(dec_consensus_state(s@) matches Some(v) && v =~= m@);
                Ok(m)
            } else {
                Err(DecodeError::Malformed)
            }
        },
        FieldSlice::Found(bs, be) => {
            if be == s.len() {
                let nvh = copy_range(s, bs, be);
                let m = RawConsensusState { timestamp, root, next_validators_hash: nvh };
                assert(dec_consensus_state(s@) matches Some(v) && v =~= m@);
                Ok(m)
            } else {
                Err(DecodeError::Malformed)
            }
        },
    }
}

/// Appends one varint field.
pub fn encode_varint_field(out: &mut Vec<u8>, tag: u8, v: u64)
    ensures
        final(out)@ == old(out)@ + enc_varint_field(tag, v),
{
    let ghost orig: Seq<u8> = out@;
    out.push(tag);
    encode_varint(out, v);
    proof {
        assert(out@ =~= orig + enc_varint_field(tag, v));
    }
}

/// Appends one length-delimited field.
pub fn encode_len_field(out: &mut Vec<u8>, tag: u8, body: &[u8])
    ensures
        final(out)@ == old(out)@ + enc_len_field(tag, body@),
{
    let ghost orig: Seq<u8> = out@;
    out.push(tag);
    encode_varint(out, body.len() as u64);
    push_bytes(out, body);
    proof {
        assert(out@ =~= orig + enc_len_field(tag, body@));
    }
}

/// Encodes a Timestamp message body.
pub fn encode_timestamp_body(t: &RawTimestamp) -> (r: Vec<u8>)
    ensures
        r@ == enc_timestamp_body(*t),
{
    let mut out: Vec<u8> = Vec::new();
    if t.seconds != 0 {
        encode_varint_field(&mut out, TAG_TS_SECONDS, u64_from_i64_bits(t.seconds));
    }
    if t.nanos != 0 {
        encode_varint_field(&mut out, TAG_TS_NANOS, u64_from_i64_bits(t.nanos as i64));
    }
    proof {
        assert(out@ =~= enc_timestamp_body(*t));
    }
    out
}

/// Encodes a MerkleRoot message body.
pub fn encode_merkle_root_body(hash: &[u8]) -> (r: Vec<u8>)
    ensures
        r@ == enc_merkle_root_body(hash@),
{
    let mut out: Vec<u8> = Vec::new();
    if hash.len() > 0 {
        encode_len_field(&mut out, TAG_ROOT_HASH, hash);
    }
    proof {
        assert(out@ =~= enc_merkle_root_body(hash@));
    }
    out
}

/// Encodes a whole raw consensus-state message canonically.
pub fn encode_consensus_state(m: &RawConsensusState) -> (r: Vec<u8>)
    ensures
        r@ == enc_consensus_state(m@),
{
    let mut out: Vec<u8> = Vec::new();
    match &m.timestamp {
        Some(t) => {
            let body = encode_timestamp_body(t);
            encode_len_field(&mut out, TAG_CS_TIMESTAMP, body.as_slice());
        },
        None => {},
    }
    match &m.root {
        Some(root) => {
            let body = encode_merkle_root_body(root.hash.as_slice());
            encode_len_field(&mut out, TAG_CS_ROOT, body.as_slice());
        },
        None => {},
    }
    if m.next_validators_hash.len() > 0 {
        encode_len_field(&mut out, TAG_CS_NEXT_VALIDATORS_HASH, m.next_validators_hash.as_slice());
    }
    proof {
        assert(out@ =~= enc_consensus_state(m@));
    }
    out
}

} // verus!

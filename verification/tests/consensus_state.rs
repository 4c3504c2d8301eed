use ics07_tendermint::consensus_state::ConsensusState;
use ics07_tendermint::error::{DecodeError, FieldName, HashError, TimestampError};
use ics07_tendermint::timestamp::{Timestamp, MAX_UNIX_SECONDS, MIN_UNIX_SECONDS};
use ics07_tendermint::types::{BlockHeader, CommitmentRoot, Header, Sha256Hash, SignedHeader};

// 2023-01-01T00:00:00.5Z
const SAMPLE_SECONDS: i64 = 1672531200;
const SAMPLE_NANOS: i32 = 500000000;
// varint encodings of the sample second/nano values
const SAMPLE_SECONDS_VARINT: [u8; 5] = [0x80, 0x9A, 0xC3, 0x9D, 0x06];
const SAMPLE_NANOS_VARINT: [u8; 5] = [0x80, 0xCA, 0xB5, 0xEE, 0x01];

fn sample_record() -> ConsensusState {
    ConsensusState::new(
        CommitmentRoot::from_bytes(&[0x01u8; 32]),
        Timestamp { seconds: SAMPLE_SECONDS, nanos: SAMPLE_NANOS },
        Sha256Hash::from_bytes(&[0xAAu8; 32]).unwrap(),
    )
}

fn sample_timestamp_field() -> Vec<u8> {
    let mut out = vec![0x0A, 0x0C, 0x08];
    out.extend_from_slice(&SAMPLE_SECONDS_VARINT);
    out.push(0x10);
    out.extend_from_slice(&SAMPLE_NANOS_VARINT);
    out
}

fn sample_root_field() -> Vec<u8> {
    let mut out = vec![0x12, 0x22, 0x0A, 0x20];
    out.extend_from_slice(&[0x01u8; 32]);
    out
}

fn sample_hash_field() -> Vec<u8> {
    let mut out = vec![0x1A, 0x20];
    out.extend_from_slice(&[0xAAu8; 32]);
    out
}

fn sample_wire_bytes() -> Vec<u8> {
    let mut out = sample_timestamp_field();
    out.extend_from_slice(&sample_root_field());
    out.extend_from_slice(&sample_hash_field());
    out
}

#[test]
fn round_trip_basic() {
    let record = sample_record();
    let bytes = record.encode_to_vec();
    let decoded = ConsensusState::decode_vec(&bytes).unwrap();
    assert_eq!(decoded, record);
}

#[test]
fn example_scenario_wire_bytes() {
    // Header fields, the projected record, its exact canonical bytes, and back.
    let header = BlockHeader {
        app_hash: vec![0x01u8; 32],
        time: Timestamp { seconds: SAMPLE_SECONDS, nanos: SAMPLE_NANOS },
        next_validators_hash: Sha256Hash::from_bytes(&[0xAAu8; 32]).unwrap(),
    };
    let record = ConsensusState::from_block_header(header);
    let bytes = record.encode_to_vec();
    assert_eq!(bytes, sample_wire_bytes());
    let decoded = ConsensusState::decode_vec(&bytes).unwrap();
    assert_eq!(decoded, record);
}

#[test]
fn projection_fidelity() {
    let header = BlockHeader {
        app_hash: vec![0x07, 0x08, 0x09],
        time: Timestamp { seconds: 42, nanos: 7 },
        next_validators_hash: Sha256Hash::from_bytes(&[0x55u8; 32]).unwrap(),
    };
    let record = ConsensusState::from_block_header(header.clone());
    assert_eq!(record.root().as_bytes(), &header.app_hash[..]);
    assert_eq!(record.timestamp(), header.time);
    assert_eq!(
        record.next_validators_hash.as_bytes(),
        header.next_validators_hash.as_bytes()
    );
}

#[test]
fn projection_via_wrapper() {
    let header = BlockHeader {
        app_hash: vec![0x07, 0x08, 0x09],
        time: Timestamp { seconds: 42, nanos: 7 },
        next_validators_hash: Sha256Hash::from_bytes(&[0x55u8; 32]).unwrap(),
    };
    let wrapper = Header { signed_header: SignedHeader { header: header.clone() } };
    assert_eq!(
        ConsensusState::from_header(wrapper),
        ConsensusState::from_block_header(header)
    );
}

#[test]
fn encode_is_deterministic() {
    let record = sample_record();
    let first = record.encode_to_vec();
    let second = record.encode_to_vec();
    assert_eq!(first, second);
    // an equal record built independently encodes identically
    let other = sample_record();
    assert_eq!(other.encode_to_vec(), first);
    // and encoding did not disturb the record
    assert_eq!(record, sample_record());
}

#[test]
fn reject_missing_timestamp() {
    let mut bytes = sample_root_field();
    bytes.extend_from_slice(&sample_hash_field());
    let err = ConsensusState::decode_vec(&bytes).unwrap_err();
    assert_eq!(err, DecodeError::MissingField(FieldName::Timestamp));
    assert_eq!(FieldName::Timestamp.as_str(), "timestamp");
    assert_eq!(err.message(), "missing timestamp");
}

#[test]
fn reject_missing_root() {
    let mut bytes = sample_timestamp_field();
    bytes.extend_from_slice(&sample_hash_field());
    let err = ConsensusState::decode_vec(&bytes).unwrap_err();
    assert_eq!(err, DecodeError::MissingField(FieldName::CommitmentRoot));
    assert_eq!(FieldName::CommitmentRoot.as_str(), "commitment_root");
    assert_eq!(err.message(), "missing commitment root");
}

#[test]
fn reject_wrong_hash_length() {
    let mut bytes = sample_timestamp_field();
    bytes.extend_from_slice(&sample_root_field());
    bytes.push(0x1A);
    bytes.push(0x1F);
    bytes.extend_from_slice(&[0xAAu8; 31]);
    let err = ConsensusState::decode_vec(&bytes).unwrap_err();
    assert_eq!(err, DecodeError::InvalidHash(HashError::WrongLength));
}

#[test]
fn reject_nanos_out_of_range() {
    // nanos = 1_000_000_000, one past the top of the range
    let mut bytes = vec![0x0A, 0x0C, 0x08];
    bytes.extend_from_slice(&SAMPLE_SECONDS_VARINT);
    bytes.push(0x10);
    bytes.extend_from_slice(&[0x80, 0x94, 0xEB, 0xDC, 0x03]);
    bytes.extend_from_slice(&sample_root_field());
    bytes.extend_from_slice(&sample_hash_field());
    let err = ConsensusState::decode_vec(&bytes).unwrap_err();
    assert_eq!(err, DecodeError::InvalidTimestamp(TimestampError::NanosOutOfRange));
}

#[test]
fn reject_seconds_out_of_range() {
    // seconds = 253402300800, one past 9999-12-31T23:59:59Z
    let mut bytes = vec![0x0A, 0x07, 0x08];
    bytes.extend_from_slice(&[0x80, 0x83, 0xD1, 0xFF, 0xAF, 0x07]);
    bytes.extend_from_slice(&sample_root_field());
    bytes.extend_from_slice(&sample_hash_field());
    let err = ConsensusState::decode_vec(&bytes).unwrap_err();
    assert_eq!(err, DecodeError::InvalidTimestamp(TimestampError::SecondsOutOfRange));
}

#[test]
fn reject_malformed_bytes() {
    // a tag with its length prefix missing
    assert_eq!(
        ConsensusState::decode_vec(&[0x0A]).unwrap_err(),
        DecodeError::Malformed
    );
    // an unknown leading tag
    assert_eq!(
        ConsensusState::decode_vec(&[0xFF, 0x01]).unwrap_err(),
        DecodeError::Malformed
    );
    // trailing garbage after a full message
    let mut bytes = sample_wire_bytes();
    bytes.push(0x00);
    assert_eq!(ConsensusState::decode_vec(&bytes).unwrap_err(), DecodeError::Malformed);
    assert_eq!(DecodeError::Malformed.message(), "malformed wire bytes");
}

#[test]
fn empty_input_is_missing_timestamp() {
    let err = ConsensusState::decode_vec(&[]).unwrap_err();
    assert_eq!(err, DecodeError::MissingField(FieldName::Timestamp));
}

#[test]
fn empty_root_bytes_are_accepted() {
    // deliberate permissiveness: the root's inner bytes are unvalidated
    let mut bytes = sample_timestamp_field();
    bytes.extend_from_slice(&[0x12, 0x00]);
    bytes.extend_from_slice(&sample_hash_field());
    let decoded = ConsensusState::decode_vec(&bytes).unwrap();
    assert_eq!(decoded.root().as_bytes(), &[] as &[u8]);
    let reencoded = decoded.encode_to_vec();
    assert_eq!(reencoded, bytes);
}

#[test]
fn zero_timestamp_round_trip() {
    let record = ConsensusState::new(
        CommitmentRoot::from_bytes(&[0x02u8; 8]),
        Timestamp { seconds: 0, nanos: 0 },
        Sha256Hash::from_bytes(&[0x33u8; 32]).unwrap(),
    );
    let bytes = record.encode_to_vec();
    // the timestamp message is present but empty at the Unix epoch
    assert_eq!(&bytes[..2], &[0x0A, 0x00]);
    assert_eq!(ConsensusState::decode_vec(&bytes).unwrap(), record);
}

#[test]
fn earliest_time_round_trip() {
    let record = ConsensusState::new(
        CommitmentRoot::from_bytes(&[0x03u8; 4]),
        Timestamp { seconds: MIN_UNIX_SECONDS, nanos: 1 },
        Sha256Hash::from_bytes(&[0x44u8; 32]).unwrap(),
    );
    let bytes = record.encode_to_vec();
    assert_eq!(ConsensusState::decode_vec(&bytes).unwrap(), record);
}

#[test]
fn latest_time_round_trip() {
    let record = ConsensusState::new(
        CommitmentRoot::from_bytes(&[0x04u8; 4]),
        Timestamp { seconds: MAX_UNIX_SECONDS, nanos: 999999999 },
        Sha256Hash::from_bytes(&[0x66u8; 32]).unwrap(),
    );
    let bytes = record.encode_to_vec();
    assert_eq!(ConsensusState::decode_vec(&bytes).unwrap(), record);
}

#[test]
fn timestamp_from_unix_validates() {
    assert_eq!(
        Timestamp::from_unix(SAMPLE_SECONDS, SAMPLE_NANOS),
        Ok(Timestamp { seconds: SAMPLE_SECONDS, nanos: SAMPLE_NANOS })
    );
    assert_eq!(
        Timestamp::from_unix(0, -1),
        Err(TimestampError::NanosOutOfRange)
    );
    assert_eq!(
        Timestamp::from_unix(0, 1000000000),
        Err(TimestampError::NanosOutOfRange)
    );
    assert_eq!(
        Timestamp::from_unix(MIN_UNIX_SECONDS - 1, 0),
        Err(TimestampError::SecondsOutOfRange)
    );
    assert_eq!(
        Timestamp::from_unix(MAX_UNIX_SECONDS + 1, 0),
        Err(TimestampError::SecondsOutOfRange)
    );
}

#[test]
fn sha256_hash_construction() {
    assert!(Sha256Hash::from_bytes(&[0u8; 32]).is_ok());
    assert_eq!(Sha256Hash::from_bytes(&[0u8; 31]), Err(HashError::WrongLength));
    assert_eq!(Sha256Hash::from_bytes(&[0u8; 33]), Err(HashError::WrongLength));
    assert_eq!(Sha256Hash::from_bytes(&[]), Err(HashError::WrongLength));
    assert_eq!(DecodeError::InvalidHash(HashError::WrongLength).message(), "invalid next validators hash");
}

#[test]
fn new_sets_fields_verbatim() {
    let record = sample_record();
    assert_eq!(record.timestamp(), Timestamp { seconds: SAMPLE_SECONDS, nanos: SAMPLE_NANOS });
    assert_eq!(record.root().as_bytes(), &[0x01u8; 32][..]);
    assert_eq!(record.next_validators_hash.as_bytes(), &[0xAAu8; 32][..]);
}

#[test]
fn equality_is_field_equality() {
    let a = sample_record();
    let b = sample_record();
    assert_eq!(a, b);
    let c = ConsensusState::new(
        CommitmentRoot::from_bytes(&[0x02u8; 32]),
        Timestamp { seconds: SAMPLE_SECONDS, nanos: SAMPLE_NANOS },
        Sha256Hash::from_bytes(&[0xAAu8; 32]).unwrap(),
    );
    assert_ne!(a, c);
    let d = ConsensusState::new(
        CommitmentRoot::from_bytes(&[0x01u8; 32]),
        Timestamp { seconds: SAMPLE_SECONDS, nanos: SAMPLE_NANOS + 1 },
        Sha256Hash::from_bytes(&[0xAAu8; 32]).unwrap(),
    );
    assert_ne!(a, d);
}

#[test]
fn commitment_root_hands_bytes_back() {
    let root = CommitmentRoot::from_bytes(&[9, 8, 7]);
    assert_eq!(root.clone().into_vec(), vec![9, 8, 7]);
    assert_eq!(root.as_bytes(), &[9, 8, 7][..]);
}

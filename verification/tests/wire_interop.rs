//! The wire codec must interoperate byte-exactly with independent protobuf
//! implementations: here, prost's generated code for the same schema.

use ibc_proto::google::protobuf::Timestamp as PbTimestamp;
use ibc_proto::ibc::lightclients::tendermint::v1::ConsensusState as PbConsensusState;
use prost::Message;

use ics07_tendermint::consensus_state::ConsensusState;
use ics07_tendermint::timestamp::Timestamp;
use ics07_tendermint::types::{CommitmentRoot, Sha256Hash};

fn ours(seconds: i64, nanos: i32, root: Vec<u8>, hash: [u8; 32]) -> ConsensusState {
    ConsensusState::new(
        CommitmentRoot::from_bytes(&root),
        Timestamp { seconds, nanos },
        Sha256Hash::from_bytes(&hash).unwrap(),
    )
}

fn theirs(seconds: i64, nanos: i32, root: Vec<u8>, hash: [u8; 32]) -> PbConsensusState {
    let mut pb = PbConsensusState::default();
    pb.timestamp = Some(PbTimestamp { seconds, nanos });
    pb.root = Some(Default::default());
    if let Some(r) = pb.root.as_mut() {
        r.hash = root;
    }
    pb.next_validators_hash = hash.to_vec();
    pb
}

#[test]
fn encoding_matches_prost() {
    let cases: Vec<(i64, i32, Vec<u8>)> = vec![
        (1672531200, 500000000, vec![0x01u8; 32]),
        (0, 0, vec![0x11, 0x22]),
        (0, 1, vec![]),
        (1, 0, vec![0xFFu8; 100]),
        (-62135596800, 999999999, vec![0x00]),
        (253402300799, 1, vec![0xABu8; 64]),
    ];
    for (seconds, nanos, root) in cases {
        let mine = ours(seconds, nanos, root.clone(), [0xAAu8; 32]).encode_to_vec();
        let other = theirs(seconds, nanos, root, [0xAAu8; 32]).encode_to_vec();
        assert_eq!(mine, other);
    }
}

#[test]
fn decoding_accepts_prost_bytes() {
    let record = ours(1672531200, 500000000, vec![0x01u8; 32], [0xAAu8; 32]);
    let bytes = theirs(1672531200, 500000000, vec![0x01u8; 32], [0xAAu8; 32]).encode_to_vec();
    assert_eq!(ConsensusState::decode_vec(&bytes).unwrap(), record);
}

#[test]
fn prost_decodes_our_bytes() {
    let bytes = ours(7, 8, vec![0x05; 3], [0x42u8; 32]).encode_to_vec();
    let decoded = PbConsensusState::decode(&bytes[..]).unwrap();
    assert_eq!(decoded, theirs(7, 8, vec![0x05; 3], [0x42u8; 32]));
}

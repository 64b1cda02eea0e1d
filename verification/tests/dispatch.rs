use node_messages::crypto::{PublicKey, SecretKey};
use node_messages::messages::{
    Any, BasicMessage, Commit, Connect, ConsensusMessage, Error, Precommit, Prevote, Propose,
    RawMessage, TxIssue, TxMessage, TxTransfer, TxVoteConfig, TxVoteValidator,
};

fn key() -> SecretKey {
    SecretKey::new([1u8; 32])
}

fn digest(fill: u8) -> node_messages::crypto::Hash {
    node_messages::crypto::Hash::new([fill; 32])
}

fn public(fill: u8) -> PublicKey {
    PublicKey::new([fill; 32])
}

fn consensus_messages(validator: u32, height: u64, round: u32) -> Vec<ConsensusMessage> {
    vec![
        ConsensusMessage::Propose(Propose::new(
            validator,
            height,
            round,
            &digest(1),
            &digest(2),
            &[digest(3)],
            &key(),
        )),
        ConsensusMessage::Prevote(Prevote::new(validator, height, round, &digest(1), 0, &key())),
        ConsensusMessage::Precommit(Precommit::new(
            validator,
            height,
            round,
            &digest(1),
            &digest(2),
            &key(),
        )),
        ConsensusMessage::Commit(Commit::new(validator, height, round, &digest(2), &key())),
    ]
}

fn transactions() -> Vec<TxMessage> {
    vec![
        TxMessage::Issue(TxIssue::new(1, &public(2), 3, b"silver", &key())),
        TxMessage::Transfer(TxTransfer::new(1, &public(2), &public(3), 4, &key())),
        TxMessage::VoteValidator(TxVoteValidator::new(1, &public(2), 3, &key())),
        TxMessage::VoteConfig(TxVoteConfig::new(1, b"k", b"v", &key())),
    ]
}

#[test]
fn height_and_round_of_every_consensus_message() {
    for message in consensus_messages(9, 5, 2) {
        assert_eq!(message.height(), 5);
        assert_eq!(message.round(), 2);
        assert_eq!(message.validator(), 9);
    }
}

#[test]
fn consensus_message_verifies_and_hashes_as_its_variant() {
    for message in consensus_messages(1, 2, 3) {
        assert!(message.verify(&key().public_key()));
        assert!(!message.verify(&SecretKey::new([9u8; 32]).public_key()));
        assert_eq!(message.hash(), message.raw().hash());
        assert_eq!(message.raw().message_class(), 1);
    }
    let types: Vec<u8> =
        consensus_messages(1, 2, 3).iter().map(|message| message.raw().message_type()).collect();
    assert_eq!(types, vec![0, 1, 2, 3]);
}

#[test]
fn transaction_hash_is_the_digest_of_its_envelope() {
    for message in transactions() {
        assert_eq!(message.hash(), node_messages::crypto::hash(message.raw().as_bytes()));
        assert_eq!(message.hash(), message.hash());
        assert!(message.verify(&key().public_key()));
        assert_eq!(message.raw().message_class(), 2);
    }
    let hashes: Vec<_> = transactions().iter().map(|message| message.hash()).collect();
    for (index, hash) in hashes.iter().enumerate() {
        assert!(!hashes[index + 1..].contains(hash));
    }
}

#[test]
fn any_takes_every_consensus_message() {
    for message in consensus_messages(9, 5, 2) {
        let any = Any::from_raw(message.raw().clone());
        assert_eq!(any, Ok(Any::Consensus(message)));
    }
}

#[test]
fn any_takes_every_transaction() {
    for message in transactions() {
        let any = Any::from_raw(message.raw().clone());
        assert_eq!(any, Ok(Any::Tx(message)));
    }
}

#[test]
fn any_takes_connect() {
    let connect = Connect::new(&public(1), 2, 3, 4, &key());
    let any = Any::from_raw(connect.raw().clone());
    assert_eq!(any, Ok(Any::Basic(BasicMessage::Connect(connect))));
}

#[test]
fn any_takes_a_buffer_from_a_peer() {
    let prevote = Prevote::new(3, 5, 2, &digest(9), 1, &key());
    let bytes = prevote.raw().as_bytes().to_vec();
    match Any::from_bytes(bytes) {
        Ok(Any::Consensus(ConsensusMessage::Prevote(message))) => {
            assert_eq!(message, prevote);
            assert_eq!(message.locked_round(), 1);
        }
        other => panic!("not a prevote: {:?}", other),
    }
}

#[test]
fn unknown_tag_is_an_error() {
    let raw = RawMessage::new(99, 99, &[0u8; 100], &key());
    assert_eq!(Any::from_raw(raw.clone()), Err(Error::UnknownMessageType));
    assert_eq!(Any::from_bytes(raw.into_bytes()), Err(Error::UnknownMessageType));
}

#[test]
fn known_class_with_unknown_type_is_an_error() {
    for class in 0u8..3 {
        let raw = RawMessage::new(class, 4, &[0u8; 100], &key());
        assert_eq!(Any::from_raw(raw), Err(Error::UnknownMessageType));
    }
    let raw = RawMessage::new(0, 1, &[0u8; 100], &key());
    assert_eq!(Any::from_raw(raw), Err(Error::UnknownMessageType));
    let raw = RawMessage::new(3, 0, &[0u8; 100], &key());
    assert_eq!(Any::from_raw(raw), Err(Error::UnknownMessageType));
}

#[test]
fn any_reports_the_error_of_the_type_that_the_tag_names() {
    let raw = RawMessage::new(1, 1, &[0u8; 10], &key());
    assert_eq!(Any::from_raw(raw), Err(Error::UnexpectedlyShort));
    let raw = RawMessage::new(1, 0, &[0u8; 88], &key());
    assert_eq!(
        Any::from_raw(raw),
        Err(Error::IncorrectSegmentReference { offset: 0, size: 0 })
    );
}

#[test]
fn any_reports_the_errors_of_the_envelope() {
    assert_eq!(Any::from_bytes(Vec::new()), Err(Error::UnexpectedlyShort));
    assert_eq!(Any::from_bytes(vec![0u8; 70]), Err(Error::UnexpectedlyShort));
    let mut bytes = Prevote::new(3, 5, 2, &digest(9), 1, &key()).raw().as_bytes().to_vec();
    bytes.push(0);
    assert_eq!(Any::from_bytes(bytes.clone()), Err(Error::IncorrectLength));
    bytes.truncate(bytes.len() - 2);
    assert_eq!(Any::from_bytes(bytes), Err(Error::IncorrectLength));
    let mut long = vec![0u8; 1024 * 1024 + 1];
    let declared = (long.len() - 71) as u32;
    long[3..7].copy_from_slice(&declared.to_le_bytes());
    assert_eq!(Any::from_bytes(long), Err(Error::TooLong));
}

#[test]
fn altering_any_signed_byte_breaks_the_signature() {
    let message = Propose::new(1, 5, 2, &digest(1), &digest(2), &[digest(3)], &key());
    let bytes = message.raw().as_bytes().to_vec();
    let signed = bytes.len() - 64;
    let public_key = key().public_key();
    for index in 0..signed {
        let mut altered = bytes.clone();
        altered[index] ^= 0x01;
        match RawMessage::from_bytes(altered) {
            Ok(raw) => assert!(!raw.verify(&public_key), "byte {} altered", index),
            Err(error) => {
                assert!((3..7).contains(&index), "byte {} altered", index);
                assert_eq!(error, Error::IncorrectLength);
            }
        }
    }
}

#[test]
fn altered_field_decodes_and_does_not_verify() {
    let message = Prevote::new(3, 5, 2, &digest(9), 1, &key());
    let mut bytes = message.raw().as_bytes().to_vec();
    bytes[7 + 4] = 6;
    match Any::from_bytes(bytes) {
        Ok(Any::Consensus(altered)) => {
            assert_eq!(altered.height(), 6);
            assert_eq!(altered.round(), 2);
            assert!(!altered.verify(&key().public_key()));
            assert_ne!(altered.hash(), message.hash());
        }
        other => panic!("not a consensus message: {:?}", other),
    }
}

#[test]
fn altered_signature_decodes_and_does_not_verify() {
    let message = Commit::new(3, 5, 2, &digest(9), &key());
    let mut bytes = message.raw().as_bytes().to_vec();
    let last = bytes.len() - 1;
    bytes[last] ^= 0x80;
    let altered = Any::from_bytes(bytes).unwrap();
    match altered {
        Any::Consensus(ConsensusMessage::Commit(commit)) => {
            assert_eq!(commit.block_hash(), digest(9));
            assert!(!commit.verify(&key().public_key()));
        }
        other => panic!("not a commit: {:?}", other),
    }
}

#[test]
fn altered_tag_changes_what_the_buffer_is_taken_for() {
    let message = Precommit::new(3, 5, 2, &digest(9), &digest(9), &key());
    let mut bytes = message.raw().as_bytes().to_vec();
    bytes[2] = 3;
    match Any::from_bytes(bytes.clone()) {
        Ok(Any::Consensus(ConsensusMessage::Commit(commit))) => {
            assert_eq!(commit.height(), 5);
            assert!(!commit.verify(&key().public_key()));
        }
        other => panic!("not a commit: {:?}", other),
    }
    bytes[1] = 99;
    bytes[2] = 99;
    assert_eq!(Any::from_bytes(bytes), Err(Error::UnknownMessageType));
}

#[test]
fn envelope_of_a_sum_type_is_the_envelope_of_its_variant() {
    let connect = Connect::new(&public(1), 2, 3, 4, &key());
    let bytes = connect.raw().as_bytes().to_vec();
    let basic = BasicMessage::Connect(connect);
    assert_eq!(basic.raw().as_bytes(), &bytes[..]);
    let any = Any::Basic(basic);
    assert_eq!(any.raw().as_bytes(), &bytes[..]);
    assert_eq!((any.raw().message_class(), any.raw().message_type()), (0, 0));
    for message in transactions() {
        let bytes = message.raw().as_bytes().to_vec();
        assert_eq!(Any::Tx(message).raw().as_bytes(), &bytes[..]);
    }
    for message in consensus_messages(1, 2, 3) {
        let bytes = message.raw().as_bytes().to_vec();
        assert_eq!(Any::Consensus(message).raw().as_bytes(), &bytes[..]);
    }
}

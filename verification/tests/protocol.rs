use node_messages::crypto::{PublicKey, SecretKey};
use node_messages::messages::{
    Commit, Connect, Error, Precommit, Prevote, Propose, RawMessage, TxIssue, TxTransfer,
    TxVoteConfig, TxVoteValidator, BASIC_CLASS, CONSENSUS_CLASS, TX_CLASS,
};

fn key() -> SecretKey {
    SecretKey::new([1u8; 32])
}

fn digest(fill: u8) -> node_messages::crypto::Hash {
    node_messages::crypto::Hash::new([fill; 32])
}

fn public(fill: u8) -> PublicKey {
    PublicKey::new([fill; 32])
}

#[test]
fn tags_are_unique() {
    let tags = [
        (Connect::MESSAGE_CLASS, Connect::MESSAGE_TYPE),
        (Propose::MESSAGE_CLASS, Propose::MESSAGE_TYPE),
        (Prevote::MESSAGE_CLASS, Prevote::MESSAGE_TYPE),
        (Precommit::MESSAGE_CLASS, Precommit::MESSAGE_TYPE),
        (Commit::MESSAGE_CLASS, Commit::MESSAGE_TYPE),
        (TxIssue::MESSAGE_CLASS, TxIssue::MESSAGE_TYPE),
        (TxTransfer::MESSAGE_CLASS, TxTransfer::MESSAGE_TYPE),
        (TxVoteValidator::MESSAGE_CLASS, TxVoteValidator::MESSAGE_TYPE),
        (TxVoteConfig::MESSAGE_CLASS, TxVoteConfig::MESSAGE_TYPE),
    ];
    for (index, tag) in tags.iter().enumerate() {
        assert!(!tags[index + 1..].contains(tag));
    }
    assert_eq!(Connect::MESSAGE_CLASS, BASIC_CLASS);
    assert_eq!(Propose::MESSAGE_CLASS, CONSENSUS_CLASS);
    assert_eq!(TxIssue::MESSAGE_CLASS, TX_CLASS);
}

#[test]
fn propose_body_is_laid_out_as_declared() {
    let transactions = [digest(0xc1), digest(0xc2)];
    let message = Propose::new(1, 5, 2, &digest(0xa0), &digest(0xb0), &transactions, &key());
    let mut body = Vec::new();
    body.extend_from_slice(&[1, 0, 0, 0]);
    body.extend_from_slice(&[5, 0, 0, 0, 0, 0, 0, 0]);
    body.extend_from_slice(&[2, 0, 0, 0]);
    body.extend_from_slice(&[0xa0; 32]);
    body.extend_from_slice(&[0xb0; 32]);
    body.extend_from_slice(&[88, 0, 0, 0, 2, 0, 0, 0]);
    body.extend_from_slice(&[0xc1; 32]);
    body.extend_from_slice(&[0xc2; 32]);
    assert_eq!(message.raw().body(), &body[..]);
    assert_eq!(message.raw().message_class(), 1);
    assert_eq!(message.raw().message_type(), 0);
    assert_eq!(&message.raw().as_bytes()[..7], &[0, 1, 0, 152, 0, 0, 0]);
}

#[test]
fn propose_round_trip() {
    let transactions = [digest(3), digest(4), digest(5)];
    let message =
        Propose::new(7, u64::MAX, u32::MAX, &digest(1), &digest(2), &transactions, &key());
    let again = Propose::from_raw(message.raw().clone());
    assert_eq!(again, Ok(message.clone()));
    let again = again.unwrap();
    assert_eq!(again.validator(), 7);
    assert_eq!(again.height(), u64::MAX);
    assert_eq!(again.round(), u32::MAX);
    assert_eq!(again.propose_hash(), digest(1));
    assert_eq!(again.prev_hash(), digest(2));
    assert_eq!(again.transactions().len(), 3);
    assert_eq!(again.transactions().get(0), digest(3));
    assert_eq!(again.transactions().get(1), digest(4));
    assert_eq!(again.transactions().get(2), digest(5));
    assert!(again.verify(&key().public_key()));
    assert_eq!(again.hash(), message.hash());
}

#[test]
fn propose_without_transactions() {
    let message = Propose::new(0, 0, 0, &digest(0), &digest(0), &[], &key());
    assert_eq!(message.raw().body().len(), 88);
    assert_eq!(&message.raw().body()[80..], &[88, 0, 0, 0, 0, 0, 0, 0]);
    assert_eq!(message.transactions().len(), 0);
    assert!(Propose::from_raw(message.raw().clone()).is_ok());
}

#[test]
fn prevote_round_trip() {
    let message = Prevote::new(3, 5, 2, &digest(9), 1, &key());
    assert_eq!(message.raw().body().len(), 52);
    assert_eq!(&message.raw().body()[48..], &[1, 0, 0, 0]);
    let again = Prevote::from_raw(message.raw().clone()).unwrap();
    assert_eq!(again, message);
    assert_eq!(again.validator(), 3);
    assert_eq!(again.height(), 5);
    assert_eq!(again.round(), 2);
    assert_eq!(again.propose_hash(), digest(9));
    assert_eq!(again.locked_round(), 1);
    assert!(again.verify(&key().public_key()));
}

#[test]
fn precommit_round_trip() {
    let message = Precommit::new(3, 5, 2, &digest(9), &digest(10), &key());
    assert_eq!(message.raw().body().len(), 80);
    let again = Precommit::from_raw(message.raw().clone()).unwrap();
    assert_eq!(again, message);
    assert_eq!(again.validator(), 3);
    assert_eq!(again.height(), 5);
    assert_eq!(again.round(), 2);
    assert_eq!(again.propose_hash(), digest(9));
    assert_eq!(again.block_hash(), digest(10));
    assert_eq!(again.hash(), message.hash());
}

#[test]
fn commit_round_trip() {
    let message = Commit::new(3, 5, 2, &digest(11), &key());
    assert_eq!(message.raw().body().len(), 48);
    let again = Commit::from_raw(message.raw().clone()).unwrap();
    assert_eq!(again, message);
    assert_eq!(again.validator(), 3);
    assert_eq!(again.height(), 5);
    assert_eq!(again.round(), 2);
    assert_eq!(again.block_hash(), digest(11));
}

#[test]
fn connect_round_trip() {
    let message = Connect::new(&public(0x77), 0x7f00_0001, 8080, 1_478_000_000, &key());
    let mut body = vec![0x77u8; 32];
    body.extend_from_slice(&[1, 0, 0, 0x7f]);
    body.extend_from_slice(&[0x90, 0x1f]);
    body.extend_from_slice(&1_478_000_000u64.to_le_bytes());
    assert_eq!(message.raw().body(), &body[..]);
    let again = Connect::from_raw(message.raw().clone()).unwrap();
    assert_eq!(again, message);
    assert_eq!(again.pub_key(), public(0x77));
    assert_eq!(again.address(), 0x7f00_0001);
    assert_eq!(again.port(), 8080);
    assert_eq!(again.time(), 1_478_000_000);
    assert!(again.verify(&key().public_key()));
}

#[test]
fn issue_round_trip() {
    let message = TxIssue::new(99, &public(5), 1000, b"gold", &key());
    let mut body = Vec::new();
    body.extend_from_slice(&99u64.to_le_bytes());
    body.extend_from_slice(&[5; 32]);
    body.extend_from_slice(&1000u64.to_le_bytes());
    body.extend_from_slice(&[56, 0, 0, 0, 4, 0, 0, 0]);
    body.extend_from_slice(b"gold");
    assert_eq!(message.raw().body(), &body[..]);
    let again = TxIssue::from_raw(message.raw().clone()).unwrap();
    assert_eq!(again, message);
    assert_eq!(again.seed(), 99);
    assert_eq!(again.asset(), public(5));
    assert_eq!(again.amount(), 1000);
    assert_eq!(again.name(), b"gold");
}

#[test]
fn issue_with_empty_name() {
    let message = TxIssue::new(0, &public(0), 0, b"", &key());
    assert_eq!(message.name(), b"");
    assert_eq!(message.raw().body().len(), 56);
    assert!(TxIssue::from_raw(message.raw().clone()).is_ok());
}

#[test]
fn transfer_round_trip() {
    let message = TxTransfer::new(1, &public(2), &public(3), 4, &key());
    assert_eq!(message.raw().body().len(), 80);
    let again = TxTransfer::from_raw(message.raw().clone()).unwrap();
    assert_eq!(again, message);
    assert_eq!(again.seed(), 1);
    assert_eq!(again.from(), public(2));
    assert_eq!(again.to(), public(3));
    assert_eq!(again.amount(), 4);
}

#[test]
fn vote_validator_round_trip() {
    let message = TxVoteValidator::new(1, &public(2), 3, &key());
    assert_eq!(message.raw().body().len(), 48);
    let again = TxVoteValidator::from_raw(message.raw().clone()).unwrap();
    assert_eq!(again, message);
    assert_eq!(again.seed(), 1);
    assert_eq!(again.pub_key(), public(2));
    assert_eq!(again.power(), 3);
}

#[test]
fn vote_config_body_holds_both_segments_in_order() {
    let message = TxVoteConfig::new(6, b"timeout", b"3000", &key());
    let mut body = Vec::new();
    body.extend_from_slice(&6u64.to_le_bytes());
    body.extend_from_slice(&[24, 0, 0, 0, 7, 0, 0, 0]);
    body.extend_from_slice(&[31, 0, 0, 0, 4, 0, 0, 0]);
    body.extend_from_slice(b"timeout");
    body.extend_from_slice(b"3000");
    assert_eq!(message.raw().body(), &body[..]);
    let again = TxVoteConfig::from_raw(message.raw().clone()).unwrap();
    assert_eq!(again, message);
    assert_eq!(again.seed(), 6);
    assert_eq!(again.key(), b"timeout");
    assert_eq!(again.value(), b"3000");
}

#[test]
fn envelope_of_another_type_is_refused() {
    let prevote = Prevote::new(3, 5, 2, &digest(9), 1, &key());
    assert_eq!(Propose::from_raw(prevote.raw().clone()), Err(Error::IncorrectMessageType));
    assert_eq!(Commit::from_raw(prevote.raw().clone()), Err(Error::IncorrectMessageType));
    let same_type_other_class = RawMessage::new(TX_CLASS, Prevote::MESSAGE_TYPE, &[0; 52], &key());
    assert_eq!(Prevote::from_raw(same_type_other_class), Err(Error::IncorrectMessageType));
    let same_class_other_type = RawMessage::new(CONSENSUS_CLASS, 9, &[0; 52], &key());
    assert_eq!(Prevote::from_raw(same_class_other_type), Err(Error::IncorrectMessageType));
}

#[test]
fn wrong_tag_is_reported_before_a_short_body() {
    let raw = RawMessage::new(TX_CLASS, TxTransfer::MESSAGE_TYPE, &[], &key());
    assert_eq!(Commit::from_raw(raw), Err(Error::IncorrectMessageType));
}

#[test]
fn body_shorter_than_the_fixed_fields_is_refused() {
    let raw = RawMessage::new(CONSENSUS_CLASS, Prevote::MESSAGE_TYPE, &[0; 51], &key());
    assert_eq!(Prevote::from_raw(raw), Err(Error::UnexpectedlyShort));
    let raw = RawMessage::new(CONSENSUS_CLASS, Propose::MESSAGE_TYPE, &[0; 87], &key());
    assert_eq!(Propose::from_raw(raw), Err(Error::UnexpectedlyShort));
    let raw = RawMessage::new(BASIC_CLASS, Connect::MESSAGE_TYPE, &[], &key());
    assert_eq!(Connect::from_raw(raw), Err(Error::UnexpectedlyShort));
    let raw = RawMessage::new(TX_CLASS, TxVoteConfig::MESSAGE_TYPE, &[0; 23], &key());
    assert_eq!(TxVoteConfig::from_raw(raw), Err(Error::UnexpectedlyShort));
}

#[test]
fn body_longer_than_the_fixed_fields_is_accepted() {
    let raw = RawMessage::new(CONSENSUS_CLASS, Commit::MESSAGE_TYPE, &[0; 60], &key());
    let message = Commit::from_raw(raw).unwrap();
    assert_eq!(message.validator(), 0);
    assert_eq!(message.block_hash(), digest(0));
}

#[test]
fn propose_with_a_pointer_past_the_end_is_refused() {
    let mut body = vec![0u8; 88];
    body[80..84].copy_from_slice(&88u32.to_le_bytes());
    body[84..88].copy_from_slice(&1u32.to_le_bytes());
    body.extend_from_slice(&[0u8; 31]);
    let raw = RawMessage::new(CONSENSUS_CLASS, Propose::MESSAGE_TYPE, &body, &key());
    assert_eq!(
        Propose::from_raw(raw),
        Err(Error::IncorrectSegmentReference { offset: 88, size: 1 })
    );
    body.push(0);
    let raw = RawMessage::new(CONSENSUS_CLASS, Propose::MESSAGE_TYPE, &body, &key());
    assert_eq!(Propose::from_raw(raw).map(|message| message.transactions().len()), Ok(1));
}

#[test]
fn propose_with_a_pointer_into_the_fixed_fields_is_refused() {
    let mut body = vec![0u8; 120];
    body[80..84].copy_from_slice(&56u32.to_le_bytes());
    body[84..88].copy_from_slice(&1u32.to_le_bytes());
    let raw = RawMessage::new(CONSENSUS_CLASS, Propose::MESSAGE_TYPE, &body, &key());
    assert_eq!(
        Propose::from_raw(raw),
        Err(Error::IncorrectSegmentReference { offset: 56, size: 1 })
    );
}

#[test]
fn all_zero_propose_body_is_refused() {
    let raw = RawMessage::new(CONSENSUS_CLASS, Propose::MESSAGE_TYPE, &[0; 88], &key());
    assert_eq!(
        Propose::from_raw(raw),
        Err(Error::IncorrectSegmentReference { offset: 0, size: 0 })
    );
}

#[test]
fn vote_config_reports_the_first_bad_pointer() {
    let mut body = vec![0u8; 24];
    body[8..12].copy_from_slice(&24u32.to_le_bytes());
    body[12..16].copy_from_slice(&2u32.to_le_bytes());
    body[16..20].copy_from_slice(&26u32.to_le_bytes());
    body[20..24].copy_from_slice(&9u32.to_le_bytes());
    body.extend_from_slice(&[1, 2, 3]);
    let raw = RawMessage::new(TX_CLASS, TxVoteConfig::MESSAGE_TYPE, &body, &key());
    assert_eq!(
        TxVoteConfig::from_raw(raw),
        Err(Error::IncorrectSegmentReference { offset: 26, size: 9 })
    );
    body[12..16].copy_from_slice(&4u32.to_le_bytes());
    let raw = RawMessage::new(TX_CLASS, TxVoteConfig::MESSAGE_TYPE, &body, &key());
    assert_eq!(
        TxVoteConfig::from_raw(raw),
        Err(Error::IncorrectSegmentReference { offset: 24, size: 4 })
    );
}

#[test]
fn segments_may_share_bytes() {
    let mut body = vec![0u8; 24];
    body[8..12].copy_from_slice(&24u32.to_le_bytes());
    body[12..16].copy_from_slice(&3u32.to_le_bytes());
    body[16..20].copy_from_slice(&25u32.to_le_bytes());
    body[20..24].copy_from_slice(&2u32.to_le_bytes());
    body.extend_from_slice(&[1, 2, 3]);
    let raw = RawMessage::new(TX_CLASS, TxVoteConfig::MESSAGE_TYPE, &body, &key());
    let message = TxVoteConfig::from_raw(raw).unwrap();
    assert_eq!(message.key(), &[1u8, 2, 3][..]);
    assert_eq!(message.value(), &[2u8, 3][..]);
}

#[test]
fn issue_with_a_name_past_the_end_is_refused() {
    let mut body = vec![0u8; 56];
    body[48..52].copy_from_slice(&56u32.to_le_bytes());
    body[52..56].copy_from_slice(&u32::MAX.to_le_bytes());
    let raw = RawMessage::new(TX_CLASS, TxIssue::MESSAGE_TYPE, &body, &key());
    assert_eq!(
        TxIssue::from_raw(raw),
        Err(Error::IncorrectSegmentReference { offset: 56, size: u32::MAX })
    );
}

#[test]
fn message_signed_with_another_key_decodes_and_does_not_verify() {
    let message = Prevote::new(3, 5, 2, &digest(9), 1, &SecretKey::new([2u8; 32]));
    let again = Prevote::from_raw(message.raw().clone()).unwrap();
    assert!(!again.verify(&key().public_key()));
    assert!(again.verify(&SecretKey::new([2u8; 32]).public_key()));
}

#[test]
fn hash_differs_between_messages_and_is_the_same_for_equal_bytes() {
    let first = Prevote::new(3, 5, 2, &digest(9), 1, &key());
    let second = Prevote::new(3, 5, 3, &digest(9), 1, &key());
    let first_again = Prevote::new(3, 5, 2, &digest(9), 1, &key());
    assert_ne!(first.hash(), second.hash());
    assert_eq!(first.hash(), first_again.hash());
    assert_eq!(first.hash(), first.raw().hash());
    assert_eq!(first.hash(), node_messages::crypto::hash(first.raw().as_bytes()));
}

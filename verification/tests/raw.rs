use node_messages::crypto::{hash, sign, verify, SecretKey, Signature};
use node_messages::messages::{
    Error, MessageWriter, RawMessage, HEADER_SIZE, MAX_MESSAGE_SIZE, MIN_MESSAGE_SIZE,
};

fn key() -> SecretKey {
    SecretKey::new([42u8; 32])
}

fn buffer(class: u8, message_type: u8, declared: u32, body_len: usize) -> Vec<u8> {
    let mut bytes = vec![0u8, class, message_type];
    bytes.extend_from_slice(&declared.to_le_bytes());
    bytes.extend(std::iter::repeat(0x11u8).take(body_len));
    bytes.extend_from_slice(&[0x22u8; 64]);
    bytes
}

#[test]
fn sizes_of_the_envelope() {
    assert_eq!(HEADER_SIZE, 7);
    assert_eq!(MIN_MESSAGE_SIZE, 71);
    assert_eq!(MAX_MESSAGE_SIZE, 1024 * 1024);
}

#[test]
fn header_is_network_class_type_and_length() {
    let raw = RawMessage::new(1, 2, &[0xaa, 0xbb, 0xcc], &key());
    let bytes = raw.as_bytes();
    assert_eq!(bytes.len(), 7 + 3 + 64);
    assert_eq!(&bytes[..7], &[0, 1, 2, 3, 0, 0, 0]);
    assert_eq!(&bytes[7..10], &[0xaa, 0xbb, 0xcc]);
}

#[test]
fn length_in_the_header_is_little_endian() {
    let body = vec![0u8; 0x0102];
    let raw = RawMessage::new(0, 0, &body, &key());
    assert_eq!(&raw.as_bytes()[3..7], &[0x02, 0x01, 0, 0]);
}

#[test]
fn signature_is_over_header_and_body() {
    let raw = RawMessage::new(1, 2, &[0xaa, 0xbb, 0xcc], &key());
    let unsigned = [0u8, 1, 2, 3, 0, 0, 0, 0xaa, 0xbb, 0xcc];
    assert_eq!(raw.signed_part(), &unsigned[..]);
    assert_eq!(raw.signature(), sign(&unsigned, &key()));
    assert_eq!(&raw.as_bytes()[10..], &sign(&unsigned, &key()).bytes[..]);
    assert!(verify(&raw.signature(), &unsigned, &key().public_key()));
}

#[test]
fn accessors_of_a_built_envelope() {
    let raw = RawMessage::new(5, 9, &[1, 2, 3, 4], &key());
    assert_eq!(raw.network_id(), 0);
    assert_eq!(raw.message_class(), 5);
    assert_eq!(raw.message_type(), 9);
    assert_eq!(raw.body(), &[1u8, 2, 3, 4][..]);
    assert_eq!(raw.len(), 75);
    assert_eq!(raw.clone().into_bytes(), raw.as_bytes().to_vec());
}

#[test]
fn built_envelope_verifies_under_its_key_only() {
    let raw = RawMessage::new(1, 1, b"body", &key());
    assert!(raw.verify(&key().public_key()));
    assert!(!raw.verify(&SecretKey::new([43u8; 32]).public_key()));
}

#[test]
fn hash_is_the_digest_of_the_whole_buffer() {
    let raw = RawMessage::new(1, 1, b"body", &key());
    assert_eq!(raw.hash(), hash(raw.as_bytes()));
    assert_ne!(raw.hash(), hash(raw.signed_part()));
}

#[test]
fn hash_and_verify_answer_the_same_each_time() {
    let raw = RawMessage::new(1, 1, b"body", &key());
    assert_eq!(raw.hash(), raw.hash());
    assert_eq!(raw.verify(&key().public_key()), raw.verify(&key().public_key()));
    assert_eq!(raw.clone().hash(), raw.hash());
}

#[test]
fn empty_body_makes_the_smallest_envelope() {
    let raw = RawMessage::new(0, 0, &[], &key());
    assert_eq!(raw.len(), MIN_MESSAGE_SIZE);
    assert_eq!(raw.body(), &[][..]);
    assert_eq!(RawMessage::from_bytes(raw.clone().into_bytes()), Ok(raw));
}

#[test]
fn built_envelope_is_taken_back_from_its_bytes() {
    let raw = RawMessage::new(2, 3, &[9u8; 100], &key());
    let again = RawMessage::from_bytes(raw.as_bytes().to_vec()).unwrap();
    assert_eq!(again, raw);
    assert_eq!(again.body(), &[9u8; 100][..]);
    assert!(again.verify(&key().public_key()));
}

#[test]
fn unsigned_and_seal_make_the_envelope() {
    let unsigned = RawMessage::unsigned(1, 2, &[7, 7]);
    assert_eq!(unsigned, vec![0, 1, 2, 2, 0, 0, 0, 7, 7]);
    let raw = RawMessage::seal(unsigned, &Signature::new([0x33; 64]));
    assert_eq!(raw.body(), &[7u8, 7][..]);
    assert_eq!(raw.signature(), Signature::new([0x33; 64]));
    assert!(!raw.verify(&key().public_key()));
}

#[test]
fn buffer_shorter_than_the_smallest_envelope_is_refused() {
    assert_eq!(RawMessage::from_bytes(Vec::new()), Err(Error::UnexpectedlyShort));
    assert_eq!(RawMessage::from_bytes(vec![0u8; 6]), Err(Error::UnexpectedlyShort));
    assert_eq!(RawMessage::from_bytes(vec![0u8; 70]), Err(Error::UnexpectedlyShort));
    let mut short = buffer(1, 1, 0, 0);
    short.pop();
    assert_eq!(RawMessage::from_bytes(short), Err(Error::UnexpectedlyShort));
}

#[test]
fn wrong_declared_length_is_refused() {
    assert_eq!(RawMessage::from_bytes(buffer(1, 1, 5, 4)), Err(Error::IncorrectLength));
    assert_eq!(RawMessage::from_bytes(buffer(1, 1, 3, 4)), Err(Error::IncorrectLength));
    assert_eq!(RawMessage::from_bytes(buffer(1, 1, 1, 0)), Err(Error::IncorrectLength));
    assert_eq!(RawMessage::from_bytes(buffer(1, 1, u32::MAX, 4)), Err(Error::IncorrectLength));
    assert_eq!(
        RawMessage::from_bytes(buffer(1, 1, 4 + MIN_MESSAGE_SIZE as u32, 4)),
        Err(Error::IncorrectLength)
    );
}

#[test]
fn right_declared_length_is_accepted() {
    let raw = RawMessage::from_bytes(buffer(3, 4, 4, 4)).unwrap();
    assert_eq!(raw.message_class(), 3);
    assert_eq!(raw.message_type(), 4);
    assert_eq!(raw.body(), &[0x11u8; 4][..]);
    assert_eq!(raw.signature(), Signature::new([0x22; 64]));
}

#[test]
fn buffer_longer_than_the_largest_message_is_refused() {
    let body_len = MAX_MESSAGE_SIZE - MIN_MESSAGE_SIZE;
    assert!(RawMessage::from_bytes(buffer(1, 1, body_len as u32, body_len)).is_ok());
    assert_eq!(
        RawMessage::from_bytes(buffer(1, 1, body_len as u32 + 1, body_len + 1)),
        Err(Error::TooLong)
    );
}

#[test]
fn wrong_length_is_reported_before_too_long() {
    let body_len = MAX_MESSAGE_SIZE;
    assert_eq!(
        RawMessage::from_bytes(buffer(1, 1, 17, body_len)),
        Err(Error::IncorrectLength)
    );
}

#[test]
fn writer_puts_fields_at_their_places() {
    let mut writer = MessageWriter::new(12);
    writer.write(&0x0102_0304u32, 0, 4);
    writer.write(&7u64, 4, 12);
    let raw = writer.sign(1, 1, &key());
    assert_eq!(raw.body(), &[4u8, 3, 2, 1, 7, 0, 0, 0, 0, 0, 0, 0][..]);
}

#[test]
fn writer_starts_with_zeros() {
    let raw = MessageWriter::new(5).sign(0, 0, &key());
    assert_eq!(raw.body(), &[0u8; 5][..]);
}

#[test]
fn writer_appends_segments_in_the_order_written() {
    let mut writer = MessageWriter::new(16);
    writer.write_bytes_segment(0, &[0xaa, 0xbb]);
    writer.write_items(8, &[1u32, 2u32]);
    let raw = writer.sign(1, 1, &key());
    assert_eq!(
        raw.body(),
        &[
            16u8, 0, 0, 0, 2, 0, 0, 0, // first pointer: offset 16, two bytes
            18, 0, 0, 0, 2, 0, 0, 0, // second pointer: offset 18, two items
            0xaa, 0xbb, // first payload
            1, 0, 0, 0, 2, 0, 0, 0, // second payload
        ][..]
    );
}

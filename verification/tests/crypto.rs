use node_messages::crypto::{hash, sign, verify, PublicKey, SecretKey, Signature};

fn hex(text: &str) -> Vec<u8> {
    let digits: Vec<u8> = text
        .bytes()
        .map(|c| match c {
            b'0'..=b'9' => c - b'0',
            b'a'..=b'f' => c - b'a' + 10,
            _ => panic!("not a hex digit"),
        })
        .collect();
    digits.chunks(2).map(|pair| pair[0] * 16 + pair[1]).collect()
}

fn array32(bytes: &[u8]) -> [u8; 32] {
    let mut array = [0u8; 32];
    array.copy_from_slice(bytes);
    array
}

fn array64(bytes: &[u8]) -> [u8; 64] {
    let mut array = [0u8; 64];
    array.copy_from_slice(bytes);
    array
}

#[test]
fn sha256_of_abc() {
    let digest = hash(b"abc");
    assert_eq!(
        digest.bytes.to_vec(),
        hex("ba7816bf8f01cfea414140de5dae2223b00361a396177a9cb410ff61f20015ad")
    );
}

#[test]
fn sha256_of_nothing() {
    let digest = hash(b"");
    assert_eq!(
        digest.bytes.to_vec(),
        hex("e3b0c44298fc1c149afbf4c8996fb92427ae41e4649b934ca495991b7852b855")
    );
}

#[test]
fn public_key_of_known_seed() {
    let secret = SecretKey::new(array32(&hex(
        "9d61b19deffd5a60ba844af492ec2cc44449c5697b326919703bac031cae7f60",
    )));
    assert_eq!(
        secret.public_key().bytes.to_vec(),
        hex("d75a980182b10ab7d54bfed3c964073a0ee172f3daa62325af021a68f707511a")
    );
}

#[test]
fn signature_of_empty_message_under_known_seed() {
    let secret = SecretKey::new(array32(&hex(
        "9d61b19deffd5a60ba844af492ec2cc44449c5697b326919703bac031cae7f60",
    )));
    let signature = sign(b"", &secret);
    assert_eq!(
        signature.bytes.to_vec(),
        hex("e5564300c360ac729086e2cc806e828a84877f1eb8e5d974d873e06522490155\
             5fb8821590a33bacc61e39701cf9b46bd25bf5f0595bbe24655141438e7a100b")
    );
}

#[test]
fn signature_is_accepted_under_the_matching_key_only() {
    let secret = SecretKey::new([7u8; 32]);
    let other = SecretKey::new([8u8; 32]);
    let signature = sign(b"height 5 round 2", &secret);
    assert!(verify(&signature, b"height 5 round 2", &secret.public_key()));
    assert!(!verify(&signature, b"height 5 round 3", &secret.public_key()));
    assert!(!verify(&signature, b"height 5 round 2", &other.public_key()));
}

#[test]
fn altered_signature_is_refused() {
    let secret = SecretKey::new([7u8; 32]);
    let signature = sign(b"message", &secret);
    let mut bytes = signature.bytes;
    bytes[10] ^= 1;
    assert!(!verify(&Signature::new(bytes), b"message", &secret.public_key()));
    assert_eq!(Signature::new(array64(&signature.bytes)), signature);
}

#[test]
fn bytes_that_are_no_curve_point_accept_nothing() {
    let secret = SecretKey::new([7u8; 32]);
    let signature = sign(b"message", &secret);
    let mut found = false;
    for first in 0u8..=255 {
        let mut bytes = [0u8; 32];
        bytes[0] = first;
        bytes[31] = 0x7f;
        let key = PublicKey::new(bytes);
        if !verify(&signature, b"message", &key) {
            found = true;
        }
    }
    assert!(found);
}

#[test]
fn signing_twice_gives_the_same_signature() {
    let secret = SecretKey::new([3u8; 32]);
    assert_eq!(sign(b"again", &secret), sign(b"again", &secret));
    assert_eq!(hash(b"again"), hash(b"again"));
}

#[test]
fn hash_from_slice_takes_thirty_two_bytes_only() {
    let bytes: Vec<u8> = (0u8..40).collect();
    assert_eq!(
        node_messages::crypto::Hash::from_slice(&bytes[..32]),
        Some(node_messages::crypto::Hash::new(array32(&bytes[..32])))
    );
    assert_eq!(node_messages::crypto::Hash::from_slice(&bytes[..31]), None);
    assert_eq!(node_messages::crypto::Hash::from_slice(&bytes[..33]), None);
    assert_eq!(node_messages::crypto::Hash::from_slice(&[]), None);
}

#[test]
fn public_key_from_slice_takes_thirty_two_bytes_only() {
    let bytes: Vec<u8> = (100u8..140).collect();
    assert_eq!(
        PublicKey::from_slice(&bytes[8..40]),
        Some(PublicKey::new(array32(&bytes[8..40])))
    );
    assert_eq!(PublicKey::from_slice(&bytes), None);
    assert_eq!(PublicKey::from_slice(&bytes[..1]), None);
}

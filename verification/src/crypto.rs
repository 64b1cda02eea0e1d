//! Keys, signatures and digests.
//!
//! The values are plain byte arrays; the cryptography itself is done by the
//! `ed25519-dalek` and `sha2` crates, behind the four private functions at the
//! end of this file. Their contracts are believed, not proved.

use vstd::prelude::*;
use crate::messages::fields::read_array32;

verus! {

/// Width of a SHA-256 digest in bytes.
pub const HASH_SIZE: usize = 32;

/// Width of an Ed25519 public key in bytes.
pub const PUBLIC_KEY_SIZE: usize = 32;

/// Width of an Ed25519 secret key (the seed) in bytes.
pub const SECRET_KEY_SIZE: usize = 32;

/// Width of an Ed25519 signature in bytes.
pub const SIGNATURE_SIZE: usize = 64;

/// The SHA-256 digest of `data`, as the `sha2` crate computes it.
pub uninterp spec fn sha256_digest(data: Seq<u8>) -> Seq<u8>;

/// The Ed25519 public key that belongs to the 32-byte seed `secret_key`.
pub uninterp spec fn ed25519_public_key(secret_key: Seq<u8>) -> Seq<u8>;

/// The Ed25519 signature of `message` under the 32-byte seed `secret_key`.
pub uninterp spec fn ed25519_signature(secret_key: Seq<u8>, message: Seq<u8>) -> Seq<u8>;

/// Whether `signature` is accepted for `message` under `public_key`.
pub uninterp spec fn ed25519_accepts(
    public_key: Seq<u8>,
    message: Seq<u8>,
    signature: Seq<u8>,
) -> bool;

/// A SHA-256 digest.
#[derive(Clone, Copy, Debug, PartialEq, Eq, Hash)]
pub struct Hash {
    pub bytes: [u8; 32],
}

/// An Ed25519 public key. Any 32 bytes are a value of this type; whether they
/// are a point of the curve is decided when a signature is checked.
#[derive(Clone, Copy, Debug, PartialEq, Eq, Hash)]
pub struct PublicKey {
    pub bytes: [u8; 32],
}

/// An Ed25519 secret key: the 32-byte seed.
#[derive(Clone, Copy, Debug, PartialEq, Eq)]
pub struct SecretKey {
    pub bytes: [u8; 32],
}

/// An Ed25519 signature.
#[derive(Clone, Copy, Debug, PartialEq, Eq)]
pub struct Signature {
    pub bytes: [u8; 64],
}

impl View for Hash {
    type V = Seq<u8>;

    open spec fn view(&self) -> Seq<u8> {
        self.bytes@
    }
}

impl View for PublicKey {
    type V = Seq<u8>;

    open spec fn view(&self) -> Seq<u8> {
        self.bytes@
    }
}

impl View for SecretKey {
    type V = Seq<u8>;

    open spec fn view(&self) -> Seq<u8> {
        self.bytes@
    }
}

impl View for Signature {
    type V = Seq<u8>;

    open spec fn view(&self) -> Seq<u8> {
        self.bytes@
    }
}

impl Hash {
    /// The digest with the given bytes.
    pub fn new(bytes: [u8; 32]) -> (hash: Hash)
        ensures
            hash@ == bytes@,
    {
        Hash { bytes }
    }

    /// The digest with the bytes of `bytes`, if they are 32. Any 32 bytes are
    /// taken: nothing tells a digest from other bytes.
    pub fn from_slice(bytes: &[u8]) -> (hash: Option<Hash>)
        ensures
            match hash {
                Some(hash) => bytes@.len() == HASH_SIZE && hash@ == bytes@,
                None => bytes@.len() != HASH_SIZE,
            },
    {
        if bytes.len() != HASH_SIZE {
            return None;
        }
        let hash = Hash { bytes: read_array32(bytes, 0) };
        proof {
            assert(bytes@.subrange(0, 32) =~= bytes@);
        }
        Some(hash)
    }
}

impl PublicKey {
    /// The key with the given bytes.
    pub fn new(bytes: [u8; 32]) -> (key: PublicKey)
        ensures
            key@ == bytes@,
    {
        PublicKey { bytes }
    }

    /// The key with the bytes of `bytes`, if they are 32. Whether they are a
    /// point of the curve is not tested here.
    pub fn from_slice(bytes: &[u8]) -> (key: Option<PublicKey>)
        ensures
            match key {
                Some(key) => bytes@.len() == PUBLIC_KEY_SIZE && key@ == bytes@,
                None => bytes@.len() != PUBLIC_KEY_SIZE,
            },
    {
        if bytes.len() != PUBLIC_KEY_SIZE {
            return None;
        }
        let key = PublicKey { bytes: read_array32(bytes, 0) };
        proof {
            assert(bytes@.subrange(0, 32) =~= bytes@);
        }
        Some(key)
    }
}

impl SecretKey {
    /// The key with the given seed.
    pub fn new(bytes: [u8; 32]) -> (key: SecretKey)
        ensures
            key@ == bytes@,
    {
        SecretKey { bytes }
    }

    /// The public key under which signatures made with this key are accepted.
    pub fn public_key(&self) -> (key: PublicKey)
        ensures
            key@ == ed25519_public_key(self@),
    {
        PublicKey { bytes: derive_public_key(&self.bytes) }
    }
}

impl Signature {
    /// The signature with the given bytes.
    pub fn new(bytes: [u8; 64]) -> (signature: Signature)
        ensures
            signature@ == bytes@,
    {
        Signature { bytes }
    }
}

/// The SHA-256 digest of `data`.
pub fn hash(data: &[u8]) -> (digest: Hash)
    ensures
        digest@ == sha256_digest(data@),
{
    Hash { bytes: sha256(data) }
}

/// Signs `data` with `secret_key`. The signature is accepted under the public
/// key that belongs to `secret_key`.
pub fn sign(data: &[u8], secret_key: &SecretKey) -> (signature: Signature)
    ensures
        signature@ == ed25519_signature(secret_key@, data@),
        ed25519_accepts(ed25519_public_key(secret_key@), data@, signature@),
{
    Signature { bytes: sign_detached(&secret_key.bytes, data) }
}

/// Whether `signature` is accepted for `data` under `public_key`.
pub fn verify(signature: &Signature, data: &[u8], public_key: &PublicKey) -> (accepted: bool)
    ensures
        accepted == ed25519_accepts(public_key@, data@, signature@),
{
    verify_detached(&public_key.bytes, data, &signature.bytes)
}

/// Calls `sha2::Sha256::digest` (the `Digest` trait's one-shot function). The
/// claim: the 32 bytes returned depend on the bytes of `data` alone.
#[verifier::external_body]
fn sha256(data: &[u8]) -> (digest: [u8; 32])
    ensures
        digest@ == sha256_digest(data@),
{
    <sha2::Sha256 as sha2::Digest>::digest(data).into()
}

/// Calls `ed25519_dalek::SigningKey::from_bytes` and reads the verifying key
/// that it derived. The claim: the 32 bytes returned depend on the seed alone.
#[verifier::external_body]
fn derive_public_key(secret_key: &[u8; 32]) -> (public_key: [u8; 32])
    ensures
        public_key@ == ed25519_public_key(secret_key@),
{
    ed25519_dalek::SigningKey::from_bytes(secret_key).verifying_key().to_bytes()
}

/// Calls `ed25519_dalek::SigningKey::sign` (the `Signer` trait's method), which
/// signs as RFC 8032 describes, without randomness. The claims: the 64 bytes
/// returned depend on the seed and the message alone; and, as the crate's
/// documentation shows, verification under the public half of the same key
/// accepts them.
#[verifier::external_body]
fn sign_detached(secret_key: &[u8; 32], message: &[u8]) -> (signature: [u8; 64])
    ensures
        signature@ == ed25519_signature(secret_key@, message@),
        ed25519_accepts(ed25519_public_key(secret_key@), message@, signature@),
{
    let key = ed25519_dalek::SigningKey::from_bytes(secret_key);
    ed25519_dalek::Signer::sign(&key, message).to_bytes()
}

/// Calls `ed25519_dalek::VerifyingKey::verify` (the `Verifier` trait's method)
/// on the key that `VerifyingKey::from_bytes` makes of `public_key`; bytes that
/// are no point of the curve accept nothing. The claim: the answer depends on
/// the three byte strings alone.
#[verifier::external_body]
fn verify_detached(public_key: &[u8; 32], message: &[u8], signature: &[u8; 64]) -> (accepted: bool)
    ensures
        accepted == ed25519_accepts(public_key@, message@, signature@),
{
    let signature = ed25519_dalek::Signature::from_bytes(signature);
    match ed25519_dalek::VerifyingKey::from_bytes(public_key) {
        Ok(key) => ed25519_dalek::Verifier::verify(&key, message, &signature).is_ok(),
        Err(_) => false,
    }
}

} // verus!

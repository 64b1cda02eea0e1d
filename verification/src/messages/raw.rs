//! The envelope: one wire message as a signed byte buffer.
//!
//! ```text
//! [ header: network id (1) | class (1) | type (1) | body length (4, little-endian) ]
//! [ body:   fixed fields at their offsets | segment payloads                      ]
//! [ signature: 64 bytes, over header and body                                     ]
//! ```

use vstd::prelude::*;
use vstd::slice::slice_subrange;
use crate::crypto::{
    ed25519_accepts, ed25519_public_key, ed25519_signature, sha256_digest, PublicKey, SecretKey,
    Signature, SIGNATURE_SIZE,
};
use crate::messages::error::Error;
use crate::messages::fields::{
    le_bytes, le_value, lemma_le_bytes_len, lemma_le_value_of_bytes, lemma_radix_values, read_le,
    write_le,
};

verus! {

/// Width of the header in bytes.
pub const HEADER_SIZE: usize = 7;

/// Length of the smallest message: a header and a signature round an empty body.
pub const MIN_MESSAGE_SIZE: usize = HEADER_SIZE + SIGNATURE_SIZE;

/// Length of the largest buffer that is accepted as a message.
pub const MAX_MESSAGE_SIZE: usize = 1_048_576;

/// The network identifier that this node writes. It is only carried; no
/// decision depends on it.
pub const NETWORK_ID: u8 = 0;

/// The header of a message of the given class and type with a body of
/// `body_length` bytes.
pub open spec fn header(class: u8, message_type: u8, body_length: nat) -> Seq<u8> {
    seq![NETWORK_ID, class, message_type] + le_bytes(body_length, 4)
}

/// Header and body: the bytes that are signed.
pub open spec fn unsigned_envelope(class: u8, message_type: u8, body: Seq<u8>) -> Seq<u8> {
    header(class, message_type, body.len()) + body
}

/// Header, body and the signature over both under `secret_key`.
pub open spec fn signed_envelope(
    class: u8,
    message_type: u8,
    body: Seq<u8>,
    secret_key: Seq<u8>,
) -> Seq<u8> {
    let unsigned = unsigned_envelope(class, message_type, body);
    unsigned + ed25519_signature(secret_key, unsigned)
}

/// The body length that the header of `bytes` declares.
pub open spec fn declared_length(bytes: Seq<u8>) -> nat {
    le_value(bytes.subrange(3, 7))
}

/// Whether `bytes` have the shape of a message: room for header and
/// signature, and a body as long as the header says.
pub open spec fn is_envelope(bytes: Seq<u8>) -> bool {
    &&& bytes.len() >= MIN_MESSAGE_SIZE
    &&& declared_length(bytes) == bytes.len() - MIN_MESSAGE_SIZE
}

/// Why `bytes` are not accepted as a message, if they are not. The length
/// is tested first against the smallest message, then against the header,
/// then against the largest message.
pub open spec fn envelope_error(bytes: Seq<u8>) -> Option<Error> {
    if bytes.len() < MIN_MESSAGE_SIZE {
        Some(Error::UnexpectedlyShort)
    } else if declared_length(bytes) != bytes.len() - MIN_MESSAGE_SIZE {
        Some(Error::IncorrectLength)
    } else if bytes.len() > MAX_MESSAGE_SIZE {
        Some(Error::TooLong)
    } else {
        None
    }
}

/// The class tag of an envelope.
pub open spec fn class_of(bytes: Seq<u8>) -> u8 {
    bytes[1]
}

/// The type tag of an envelope.
pub open spec fn type_of(bytes: Seq<u8>) -> u8 {
    bytes[2]
}

/// The body of an envelope: what lies between header and signature.
pub open spec fn body_of(bytes: Seq<u8>) -> Seq<u8> {
    bytes.subrange(HEADER_SIZE as int, bytes.len() - SIGNATURE_SIZE)
}

/// The signed part of an envelope: header and body.
pub open spec fn signed_part_of(bytes: Seq<u8>) -> Seq<u8> {
    bytes.subrange(0, bytes.len() - SIGNATURE_SIZE)
}

/// The signature of an envelope: its last 64 bytes.
pub open spec fn signature_of(bytes: Seq<u8>) -> Seq<u8> {
    bytes.subrange(bytes.len() - SIGNATURE_SIZE, bytes.len() as int)
}

/// Header and body of a message always make an envelope once 64 bytes are
/// appended, whatever those bytes are; the parts come out as they went in;
/// and the envelope is accepted from its bytes unless it is too long.
pub proof fn lemma_envelope_parts(class: u8, message_type: u8, body: Seq<u8>, signature: Seq<u8>)
    requires
        body.len() <= u32::MAX,
        signature.len() == SIGNATURE_SIZE,
    ensures
        is_envelope(unsigned_envelope(class, message_type, body) + signature),
        class_of(unsigned_envelope(class, message_type, body) + signature) == class,
        type_of(unsigned_envelope(class, message_type, body) + signature) == message_type,
        body_of(unsigned_envelope(class, message_type, body) + signature) == body,
        signed_part_of(unsigned_envelope(class, message_type, body) + signature)
            == unsigned_envelope(class, message_type, body),
        signature_of(unsigned_envelope(class, message_type, body) + signature) == signature,
        envelope_error(unsigned_envelope(class, message_type, body) + signature) == if body.len()
            + MIN_MESSAGE_SIZE > MAX_MESSAGE_SIZE {
            Some(Error::TooLong)
        } else {
            None
        },
{
    let unsigned = unsigned_envelope(class, message_type, body);
    let bytes = unsigned + signature;
    lemma_radix_values();
    lemma_le_value_of_bytes(body.len(), 4);
    assert(bytes.subrange(3, 7) =~= le_bytes(body.len(), 4));
    assert(body_of(bytes) =~= body);
    assert(signed_part_of(bytes) =~= unsigned);
    assert(signature_of(bytes) =~= signature);
}

/// One wire message: header, body and signature in one owned buffer. The
/// buffer always has the shape of a message.
#[derive(Debug, PartialEq, Eq)]
pub struct RawMessage {
    bytes: Vec<u8>,
}

impl Clone for RawMessage {
    fn clone(&self) -> (copy: Self)
        ensures
            copy@ == self@,
    {
        proof {
            use_type_invariant(self);
        }
        let bytes = self.bytes.clone();
        proof {
            assert(bytes@ =~= self.bytes@);
        }
        RawMessage { bytes }
    }
}

impl View for RawMessage {
    type V = Seq<u8>;

    closed spec fn view(&self) -> Seq<u8> {
        self.bytes@
    }
}

impl RawMessage {
    #[verifier::type_invariant]
    spec fn well_formed(&self) -> bool {
        is_envelope(self@)
    }

    /// Takes `bytes` as a message if they have the shape of one and are not
    /// too long.
    pub fn from_bytes(bytes: Vec<u8>) -> (result: Result<RawMessage, Error>)
        ensures
            match result {
                Ok(raw) => envelope_error(bytes@) is None && raw@ == bytes@,
                Err(error) => envelope_error(bytes@) == Some(error),
            },
            bytes@.len() < MIN_MESSAGE_SIZE ==> result matches Err(Error::UnexpectedlyShort),
            bytes@.len() >= MIN_MESSAGE_SIZE && declared_length(bytes@) != bytes@.len()
                - MIN_MESSAGE_SIZE ==> result matches Err(Error::IncorrectLength),
    {
        let len = bytes.len();
        if len < MIN_MESSAGE_SIZE {
            return Err(Error::UnexpectedlyShort);
        }
        let declared = read_le(bytes.as_slice(), 3, 4);
        if declared != (len - MIN_MESSAGE_SIZE) as u64 {
            return Err(Error::IncorrectLength);
        }
        if len > MAX_MESSAGE_SIZE {
            return Err(Error::TooLong);
        }
        Ok(RawMessage { bytes })
    }

    /// Header and body of a message, not yet signed.
    pub fn unsigned(class: u8, message_type: u8, body: &[u8]) -> (bytes: Vec<u8>)
        requires
            body@.len() <= u32::MAX,
        ensures
            bytes@ == unsigned_envelope(class, message_type, body@),
    {
        let mut bytes: Vec<u8> = Vec::new();
        bytes.push(NETWORK_ID);
        bytes.push(class);
        bytes.push(message_type);
        bytes.push(0);
        bytes.push(0);
        bytes.push(0);
        bytes.push(0);
        write_le(&mut bytes, 3, 4, body.len() as u64);
        let mut i: usize = 0;
        proof {
            lemma_le_bytes_len(body@.len(), 4);
            assert(bytes@ =~= header(class, message_type, body@.len()));
        }
        while i < body.len()
            invariant
                i <= body@.len(),
                bytes@ == header(class, message_type, body@.len()) + body@.subrange(0, i as int),
            decreases body@.len() - i,
        {
            bytes.push(body[i]);
            proof {
                assert(body@.subrange(0, i as int).push(body@[i as int]) =~= body@.subrange(
                    0,
                    i + 1,
                ));
                assert(bytes@ =~= header(class, message_type, body@.len()) + body@.subrange(
                    0,
                    i + 1,
                ));
            }
            i += 1;
        }
        proof {
            assert(body@.subrange(0, i as int) =~= body@);
        }
        bytes
    }

    /// Completes header and body with their signature.
    pub fn seal(unsigned: Vec<u8>, signature: &Signature) -> (raw: RawMessage)
        requires
            unsigned@.len() >= HEADER_SIZE,
            declared_length(unsigned@) == unsigned@.len() - HEADER_SIZE,
        ensures
            raw@ == unsigned@ + signature@,
    {
        let mut bytes = unsigned;
        let mut i: usize = 0;
        while i < SIGNATURE_SIZE
            invariant
                i <= SIGNATURE_SIZE,
                bytes@ == unsigned@ + signature@.subrange(0, i as int),
            decreases SIGNATURE_SIZE - i,
        {
            bytes.push(signature.bytes[i]);
            proof {
                assert(signature@.subrange(0, i as int).push(signature@[i as int])
                    =~= signature@.subrange(0, i + 1));
                assert(bytes@ =~= unsigned@ + signature@.subrange(0, i + 1));
            }
            i += 1;
        }
        proof {
            assert(signature@.subrange(0, i as int) =~= signature@);
            assert(bytes@.subrange(3, 7) =~= unsigned@.subrange(3, 7));
        }
        RawMessage { bytes }
    }

    /// Builds the message of the given class and type round `body` and signs
    /// it with `secret_key`. The signature is accepted under the public key
    /// that belongs to `secret_key`.
    pub fn new(class: u8, message_type: u8, body: &[u8], secret_key: &SecretKey) -> (raw:
        RawMessage)
        requires
            body@.len() <= u32::MAX,
        ensures
            raw@ == signed_envelope(class, message_type, body@, secret_key@),
            is_envelope(raw@),
            class_of(raw@) == class,
            type_of(raw@) == message_type,
            body_of(raw@) == body@,
            ed25519_accepts(
                ed25519_public_key(secret_key@),
                signed_part_of(raw@),
                signature_of(raw@),
            ),
    {
        let unsigned = RawMessage::unsigned(class, message_type, body);
        let signature = crate::crypto::sign(unsigned.as_slice(), secret_key);
        proof {
            lemma_envelope_parts(class, message_type, body@, signature@);
            assert(unsigned@.subrange(3, 7) =~= (unsigned@ + signature@).subrange(3, 7));
        }
        RawMessage::seal(unsigned, &signature)
    }

    /// The whole buffer.
    pub fn as_bytes(&self) -> (bytes: &[u8])
        ensures
            bytes@ == self@,
            is_envelope(self@),
    {
        proof {
            use_type_invariant(self);
        }
        self.bytes.as_slice()
    }

    /// The buffer, given up.
    pub fn into_bytes(self) -> (bytes: Vec<u8>)
        ensures
            bytes@ == self@,
            is_envelope(self@),
    {
        proof {
            use_type_invariant(&self);
        }
        self.bytes
    }

    /// Length of the whole buffer.
    pub fn len(&self) -> (len: usize)
        ensures
            len == self@.len(),
            is_envelope(self@),
    {
        proof {
            use_type_invariant(self);
        }
        self.bytes.len()
    }

    /// The network identifier in the header.
    pub fn network_id(&self) -> (id: u8)
        ensures
            id == self@[0],
    {
        proof {
            use_type_invariant(self);
        }
        self.bytes[0]
    }

    /// The class tag in the header.
    pub fn message_class(&self) -> (class: u8)
        ensures
            class == class_of(self@),
    {
        proof {
            use_type_invariant(self);
        }
        self.bytes[1]
    }

    /// The type tag in the header.
    pub fn message_type(&self) -> (message_type: u8)
        ensures
            message_type == type_of(self@),
    {
        proof {
            use_type_invariant(self);
        }
        self.bytes[2]
    }

    /// The body: what lies between header and signature.
    pub fn body(&self) -> (body: &[u8])
        ensures
            body@ == body_of(self@),
            is_envelope(self@),
    {
        proof {
            use_type_invariant(self);
        }
        let len = self.bytes.len();
        slice_subrange(self.bytes.as_slice(), HEADER_SIZE, len - SIGNATURE_SIZE)
    }

    /// Header and body: the bytes that the signature is over.
    pub fn signed_part(&self) -> (part: &[u8])
        ensures
            part@ == signed_part_of(self@),
    {
        proof {
            use_type_invariant(self);
        }
        let len = self.bytes.len();
        slice_subrange(self.bytes.as_slice(), 0, len - SIGNATURE_SIZE)
    }

    /// The signature: the last 64 bytes.
    pub fn signature(&self) -> (signature: Signature)
        ensures
            signature@ == signature_of(self@),
    {
        proof {
            use_type_invariant(self);
        }
        let len = self.bytes.len();
        let start = len - SIGNATURE_SIZE;
        let mut bytes = [0u8; 64];
        let mut i: usize = 0;
        while i < SIGNATURE_SIZE
            invariant
                i <= SIGNATURE_SIZE,
                start + SIGNATURE_SIZE == len == self.bytes@.len(),
                forall|j: int| 0 <= j < i ==> bytes@[j] == self.bytes@[start + j],
            decreases SIGNATURE_SIZE - i,
        {
            bytes[i] = self.bytes[start + i];
            i += 1;
        }
        proof {
            assert(bytes@ =~= signature_of(self@));
        }
        Signature { bytes }
    }

    /// The digest of the whole buffer, signature included: the name by which
    /// the message is known.
    pub fn hash(&self) -> (digest: crate::crypto::Hash)
        ensures
            digest@ == sha256_digest(self@),
    {
        crate::crypto::hash(self.bytes.as_slice())
    }

    /// Whether the signature is accepted for header and body under
    /// `public_key`.
    pub fn verify(&self, public_key: &PublicKey) -> (accepted: bool)
        ensures
            accepted == ed25519_accepts(public_key@, signed_part_of(self@), signature_of(self@)),
    {
        let signature = self.signature();
        crate::crypto::verify(&signature, self.signed_part(), public_key)
    }
}

} // verus!

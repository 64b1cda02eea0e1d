//! The messages by which nodes find each other.

use vstd::prelude::*;
use crate::crypto::{
    ed25519_accepts, ed25519_public_key, sha256_digest, PublicKey, SecretKey, SIGNATURE_SIZE,
};
use crate::messages::error::Error;
use crate::messages::fields::{
    le_bytes, le_value, lemma_le_bytes_len, lemma_le_value_of_bytes, lemma_radix_values, Field,
};
use crate::messages::raw::{
    body_of, class_of, lemma_envelope_parts, signature_of, signed_envelope, signed_part_of,
    type_of, unsigned_envelope, RawMessage,
};
use crate::messages::writer::MessageWriter;

verus! {

/// The class tag of the basic messages.
pub const BASIC_CLASS: u8 = 0;

/// What a `Connect` says.
pub struct ConnectFields {
    pub pub_key: Seq<u8>,
    pub address: u32,
    pub port: u16,
    pub time: u64,
}

/// A node introduces itself to a peer.
///
/// ```text
/// pub_key:       PublicKey  [0, 32)
/// address:       u32        [32, 36)
/// port:          u16        [36, 38)
/// time:          u64        [38, 46)
/// ```
#[derive(Debug, PartialEq, Eq)]
pub struct Connect {
    raw: RawMessage,
}

impl Clone for Connect {
    fn clone(&self) -> (copy: Self)
        ensures
            copy.bytes() == self.bytes(),
    {
        proof {
            use_type_invariant(self);
        }
        Connect { raw: self.raw.clone() }
    }
}

impl View for Connect {
    type V = ConnectFields;

    open spec fn view(&self) -> ConnectFields {
        Self::decode(body_of(self.bytes()))
    }
}

impl Connect {
    /// The class tag in the header of every message of this type.
    pub const MESSAGE_CLASS: u8 = BASIC_CLASS;

    /// The type tag in the header of every message of this type.
    pub const MESSAGE_TYPE: u8 = 0;

    /// Width of the fixed fields.
    pub const FIXED_SIZE: usize = 46;

    #[verifier::type_invariant]
    spec fn well_formed(&self) -> bool {
        Self::decode_error(self.raw@) is None
    }

    /// The envelope's bytes.
    pub closed spec fn bytes(&self) -> Seq<u8> {
        self.raw@
    }

    /// Whether the fields can be written: keys and digests are 32 bytes each.
    pub open spec fn writable(fields: ConnectFields) -> bool {
        &&& fields.pub_key.len() == 32
    }

    /// The body that holds the fields.
    pub open spec fn encode(fields: ConnectFields) -> Seq<u8> {
        fields.pub_key
            + le_bytes(fields.address as nat, 4)
            + le_bytes(fields.port as nat, 2)
            + le_bytes(fields.time as nat, 8)
    }

    /// The fields that a body holds.
    pub open spec fn decode(body: Seq<u8>) -> ConnectFields {
        ConnectFields {
            pub_key: body.subrange(0, 32),
            address: le_value(body.subrange(32, 36)) as u32,
            port: le_value(body.subrange(36, 38)) as u16,
            time: le_value(body.subrange(38, 46)) as u64,
        }
    }

    /// Why a body does not have the layout of this type, if it has not.
    pub open spec fn layout_error(body: Seq<u8>) -> Option<Error> {
        if body.len() < 46 {
            Some(Error::UnexpectedlyShort)
        } else {
            None
        }
    }

    /// Why an envelope is not a message of this type, if it is not.
    pub open spec fn decode_error(bytes: Seq<u8>) -> Option<Error> {
        if class_of(bytes) != Self::MESSAGE_CLASS || type_of(bytes) != Self::MESSAGE_TYPE {
            Some(Error::IncorrectMessageType)
        } else {
            Self::layout_error(body_of(bytes))
        }
    }

    /// Header and body of the message that says `fields`: what is signed.
    pub open spec fn envelope(fields: ConnectFields) -> Seq<u8> {
        unsigned_envelope(Self::MESSAGE_CLASS, Self::MESSAGE_TYPE, Self::encode(fields))
    }

    /// A body that was written from fields has the layout of this type, and
    /// each field is read from it as it was written.
    pub proof fn lemma_body_round_trip(fields: ConnectFields)
        requires
            Self::writable(fields),
        ensures
            Self::encode(fields).len() <= u32::MAX,
            Self::layout_error(Self::encode(fields)) is None,
            Self::decode(Self::encode(fields)) == fields,
    {
        let body = Self::encode(fields);
        lemma_radix_values();
        lemma_le_value_of_bytes(fields.address as nat, 4);
        lemma_le_value_of_bytes(fields.port as nat, 2);
        lemma_le_value_of_bytes(fields.time as nat, 8);
        assert(body.subrange(0, 32) =~= fields.pub_key);
        assert(body.subrange(32, 36) =~= le_bytes(fields.address as nat, 4));
        assert(body.subrange(36, 38) =~= le_bytes(fields.port as nat, 2));
        assert(body.subrange(38, 46) =~= le_bytes(fields.time as nat, 8));
    }

    /// Writing the fields into an envelope and decoding the envelope gives
    /// the fields back, whatever the 64 bytes of the signature are.
    pub proof fn lemma_round_trip(fields: ConnectFields, signature: Seq<u8>)
        requires
            Self::writable(fields),
            signature.len() == SIGNATURE_SIZE,
        ensures
            Self::decode_error(Self::envelope(fields) + signature) is None,
            Self::decode(body_of(Self::envelope(fields) + signature)) == fields,
    {
        Self::lemma_body_round_trip(fields);
        lemma_envelope_parts(
            Self::MESSAGE_CLASS,
            Self::MESSAGE_TYPE,
            Self::encode(fields),
            signature,
        );
    }

    /// Builds the message and signs it with `secret_key`.
    pub fn new(
        pub_key: &PublicKey,
        address: u32,
        port: u16,
        time: u64,
        secret_key: &SecretKey,
    ) -> (message: Connect)
        ensures
            message@ == (ConnectFields {
                pub_key: pub_key@,
                address,
                port,
                time,
            }),
            message.bytes() == signed_envelope(
                Self::MESSAGE_CLASS,
                Self::MESSAGE_TYPE,
                Self::encode(message@),
                secret_key@,
            ),
            ed25519_accepts(
                ed25519_public_key(secret_key@),
                signed_part_of(message.bytes()),
                signature_of(message.bytes()),
            ),
    {
        let ghost fields = ConnectFields {
            pub_key: pub_key@,
            address,
            port,
            time,
        };
        let mut writer = MessageWriter::new(Self::FIXED_SIZE);
        writer.write(pub_key, 0, 32);
        writer.write(&address, 32, 36);
        writer.write(&port, 36, 38);
        writer.write(&time, 38, 46);
        proof {
            lemma_le_bytes_len(address as nat, 4);
            lemma_le_bytes_len(port as nat, 2);
            lemma_le_bytes_len(time as nat, 8);
            assert(writer.body() =~= Self::encode(fields));
            Self::lemma_body_round_trip(fields);
        }
        let raw = writer.sign(Self::MESSAGE_CLASS, Self::MESSAGE_TYPE, secret_key);
        Connect { raw }
    }

    /// Takes an envelope as a message of this type, if it is one: the tag is
    /// tested first, then the length of the body.
    pub fn from_raw(raw: RawMessage) -> (result: Result<Connect, Error>)
        ensures
            match result {
                Ok(message) => Self::decode_error(raw@) is None && message.bytes() == raw@,
                Err(error) => Self::decode_error(raw@) == Some(error),
            },
    {
        if raw.message_class() != Self::MESSAGE_CLASS || raw.message_type() != Self::MESSAGE_TYPE {
            return Err(Error::IncorrectMessageType);
        }
        let body = raw.body();
        if body.len() < Self::FIXED_SIZE {
            return Err(Error::UnexpectedlyShort);
        }
        Ok(Connect { raw })
    }

    /// The envelope.
    pub fn raw(&self) -> (raw: &RawMessage)
        ensures
            raw@ == self.bytes(),
            Self::decode_error(self.bytes()) is None,
    {
        proof {
            use_type_invariant(self);
        }
        &self.raw
    }

    /// The digest of the whole envelope: the name by which the message is
    /// known.
    pub fn hash(&self) -> (digest: crate::crypto::Hash)
        ensures
            digest@ == sha256_digest(self.bytes()),
    {
        self.raw.hash()
    }

    /// Whether the signature is accepted for header and body under
    /// `public_key`.
    pub fn verify(&self, public_key: &PublicKey) -> (accepted: bool)
        ensures
            accepted == ed25519_accepts(
                public_key@,
                signed_part_of(self.bytes()),
                signature_of(self.bytes()),
            ),
    {
        self.raw.verify(public_key)
    }

    /// The key under which the node signs.
    pub fn pub_key(&self) -> (key: PublicKey)
        ensures
            key@ == self@.pub_key,
    {
        proof {
            use_type_invariant(self);
        }
        PublicKey::read(self.raw.body(), 0, 32)
    }

    /// The IPv4 address at which the node listens, as a number.
    pub fn address(&self) -> (address: u32)
        ensures
            address == self@.address,
    {
        proof {
            use_type_invariant(self);
        }
        u32::read(self.raw.body(), 32, 36)
    }

    /// The port at which the node listens.
    pub fn port(&self) -> (port: u16)
        ensures
            port == self@.port,
    {
        proof {
            use_type_invariant(self);
        }
        u16::read(self.raw.body(), 36, 38)
    }

    /// When the message was made, as the sender counts time.
    pub fn time(&self) -> (time: u64)
        ensures
            time == self@.time,
    {
        proof {
            use_type_invariant(self);
        }
        u64::read(self.raw.body(), 38, 46)
    }
}

} // verus!

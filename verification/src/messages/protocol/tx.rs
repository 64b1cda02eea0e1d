//! The transactions.

use vstd::prelude::*;
use crate::crypto::{
    ed25519_accepts, ed25519_public_key, sha256_digest, PublicKey, SecretKey, SIGNATURE_SIZE,
};
use crate::messages::error::Error;
use crate::messages::fields::{
    le_bytes, le_value, lemma_le_bytes_len, lemma_le_value_of_bytes, lemma_radix_values, Field,
};
use crate::messages::raw::{
    body_of, class_of, lemma_envelope_parts, signature_of, signed_envelope, signed_part_of,
    type_of, unsigned_envelope, RawMessage,
};
use crate::messages::segment::{
    pointer, pointer_count, pointer_offset, read_segment, segment, segment_bytes,
    segment_error, segment_in_bounds,
};
use crate::messages::writer::MessageWriter;

verus! {

/// The class tag of the transactions.
pub const TX_CLASS: u8 = 2;

/// What a `TxIssue` says.
pub struct TxIssueFields {
    pub seed: u64,
    pub asset: Seq<u8>,
    pub amount: u64,
    pub name: Seq<u8>,
}

/// Issues an amount of a named asset.
///
/// ```text
/// seed:          u64        [0, 8)
/// asset:         PublicKey  [8, 40)
/// amount:        u64        [40, 48)
/// name:          [u8]       [48, 56)
/// ```
#[derive(Debug, PartialEq, Eq)]
pub struct TxIssue {
    raw: RawMessage,
}

impl Clone for TxIssue {
    fn clone(&self) -> (copy: Self)
        ensures
            copy.bytes() == self.bytes(),
    {
        proof {
            use_type_invariant(self);
        }
        TxIssue { raw: self.raw.clone() }
    }
}

impl View for TxIssue {
    type V = TxIssueFields;

    open spec fn view(&self) -> TxIssueFields {
        Self::decode(body_of(self.bytes()))
    }
}

impl TxIssue {
    /// The class tag in the header of every message of this type.
    pub const MESSAGE_CLASS: u8 = TX_CLASS;

    /// The type tag in the header of every message of this type.
    pub const MESSAGE_TYPE: u8 = 0;

    /// Width of the fixed fields.
    pub const FIXED_SIZE: usize = 56;

    #[verifier::type_invariant]
    spec fn well_formed(&self) -> bool {
        Self::decode_error(self.raw@) is None
    }

    /// The envelope's bytes.
    pub closed spec fn bytes(&self) -> Seq<u8> {
        self.raw@
    }

    /// Whether the fields can be written: keys and digests are 32 bytes each
    /// and the body's length fits the header.
    pub open spec fn writable(fields: TxIssueFields) -> bool {
        &&& fields.asset.len() == 32
        &&& 56 + fields.name.len() <= u32::MAX
    }

    /// The body that holds the fields.
    pub open spec fn encode(fields: TxIssueFields) -> Seq<u8> {
        le_bytes(fields.seed as nat, 8)
            + fields.asset
            + le_bytes(fields.amount as nat, 8)
            + pointer(56, fields.name.len())
            + fields.name
    }

    /// The fields that a body holds.
    pub open spec fn decode(body: Seq<u8>) -> TxIssueFields {
        TxIssueFields {
            seed: le_value(body.subrange(0, 8)) as u64,
            asset: body.subrange(8, 40),
            amount: le_value(body.subrange(40, 48)) as u64,
            name: segment_bytes(body, 48, 1),
        }
    }

    /// Why a body does not have the layout of this type, if it has not.
    pub open spec fn layout_error(body: Seq<u8>) -> Option<Error> {
        if body.len() < 56 {
            Some(Error::UnexpectedlyShort)
        } else if !segment_in_bounds(body, 48, 1, 56) {
            Some(segment_error(body, 48))
        } else {
            None
        }
    }

    /// Why an envelope is not a message of this type, if it is not.
    pub open spec fn decode_error(bytes: Seq<u8>) -> Option<Error> {
        if class_of(bytes) != Self::MESSAGE_CLASS || type_of(bytes) != Self::MESSAGE_TYPE {
            Some(Error::IncorrectMessageType)
        } else {
            Self::layout_error(body_of(bytes))
        }
    }

    /// Header and body of the message that says `fields`: what is signed.
    pub open spec fn envelope(fields: TxIssueFields) -> Seq<u8> {
        unsigned_envelope(Self::MESSAGE_CLASS, Self::MESSAGE_TYPE, Self::encode(fields))
    }

    /// A body that was written from fields has the layout of this type, and
    /// each field is read from it as it was written.
    pub proof fn lemma_body_round_trip(fields: TxIssueFields)
        requires
            Self::writable(fields),
        ensures
            Self::encode(fields).len() <= u32::MAX,
            Self::layout_error(Self::encode(fields)) is None,
            Self::decode(Self::encode(fields)) == fields,
    {
        let body = Self::encode(fields);
        lemma_radix_values();
        lemma_le_value_of_bytes(fields.seed as nat, 8);
        lemma_le_value_of_bytes(fields.amount as nat, 8);
        lemma_le_value_of_bytes(56, 4);
        lemma_le_value_of_bytes(fields.name.len(), 4);
        assert(body.subrange(0, 8) =~= le_bytes(fields.seed as nat, 8));
        assert(body.subrange(8, 40) =~= fields.asset);
        assert(body.subrange(40, 48) =~= le_bytes(fields.amount as nat, 8));
        assert(body.subrange(48, 52) =~= le_bytes(56, 4));
        assert(body.subrange(52, 56) =~= le_bytes(fields.name.len(), 4));
        assert(segment_bytes(body, 48, 1) =~= fields.name);
    }

    /// Writing the fields into an envelope and decoding the envelope gives
    /// the fields back, whatever the 64 bytes of the signature are.
    pub proof fn lemma_round_trip(fields: TxIssueFields, signature: Seq<u8>)
        requires
            Self::writable(fields),
            signature.len() == SIGNATURE_SIZE,
        ensures
            Self::decode_error(Self::envelope(fields) + signature) is None,
            Self::decode(body_of(Self::envelope(fields) + signature)) == fields,
    {
        Self::lemma_body_round_trip(fields);
        lemma_envelope_parts(
            Self::MESSAGE_CLASS,
            Self::MESSAGE_TYPE,
            Self::encode(fields),
            signature,
        );
    }

    /// An envelope with the tag of this type and room for the fixed fields is
    /// refused with `IncorrectSegmentReference` whenever a segment pointer
    /// names bytes past the end of the body.
    pub proof fn lemma_segment_past_end(bytes: Seq<u8>)
        requires
            class_of(bytes) == Self::MESSAGE_CLASS,
            type_of(bytes) == Self::MESSAGE_TYPE,
            body_of(bytes).len() >= 56,
            pointer_offset(body_of(bytes), 48) + pointer_count(body_of(bytes), 48) * 1
                > body_of(bytes).len(),
        ensures
            Self::decode_error(bytes) matches Some(Error::IncorrectSegmentReference { .. }),
    {
    }

    /// Builds the message and signs it with `secret_key`.
    pub fn new(
        seed: u64,
        asset: &PublicKey,
        amount: u64,
        name: &[u8],
        secret_key: &SecretKey,
    ) -> (message: TxIssue)
        requires
            56 + name@.len() <= u32::MAX,
        ensures
            message@ == (TxIssueFields {
                seed,
                asset: asset@,
                amount,
                name: name@,
            }),
            message.bytes() == signed_envelope(
                Self::MESSAGE_CLASS,
                Self::MESSAGE_TYPE,
                Self::encode(message@),
                secret_key@,
            ),
            ed25519_accepts(
                ed25519_public_key(secret_key@),
                signed_part_of(message.bytes()),
                signature_of(message.bytes()),
            ),
    {
        let ghost fields = TxIssueFields {
            seed,
            asset: asset@,
            amount,
            name: name@,
        };
        let mut writer = MessageWriter::new(Self::FIXED_SIZE);
        writer.write(&seed, 0, 8);
        writer.write(asset, 8, 40);
        writer.write(&amount, 40, 48);
        writer.write_bytes_segment(48, name);
        proof {
            lemma_le_bytes_len(seed as nat, 8);
            lemma_le_bytes_len(amount as nat, 8);
            lemma_le_bytes_len(56, 4);
            lemma_le_bytes_len(fields.name.len(), 4);
            assert(writer.body() =~= Self::encode(fields));
            Self::lemma_body_round_trip(fields);
        }
        let raw = writer.sign(Self::MESSAGE_CLASS, Self::MESSAGE_TYPE, secret_key);
        TxIssue { raw }
    }

    /// Takes an envelope as a message of this type, if it is one: the tag is
    /// tested first, then the length of the body, then each segment pointer in
    /// turn.
    pub fn from_raw(raw: RawMessage) -> (result: Result<TxIssue, Error>)
        ensures
            match result {
                Ok(message) => Self::decode_error(raw@) is None && message.bytes() == raw@,
                Err(error) => Self::decode_error(raw@) == Some(error),
            },
    {
        if raw.message_class() != Self::MESSAGE_CLASS || raw.message_type() != Self::MESSAGE_TYPE {
            return Err(Error::IncorrectMessageType);
        }
        let body = raw.body();
        if body.len() < Self::FIXED_SIZE {
            return Err(Error::UnexpectedlyShort);
        }
        if let Err(error) = read_segment(body, 48, 1, Self::FIXED_SIZE) {
            return Err(error);
        }
        Ok(TxIssue { raw })
    }

    /// The envelope.
    pub fn raw(&self) -> (raw: &RawMessage)
        ensures
            raw@ == self.bytes(),
            Self::decode_error(self.bytes()) is None,
    {
        proof {
            use_type_invariant(self);
        }
        &self.raw
    }

    /// The digest of the whole envelope: the name by which the message is
    /// known.
    pub fn hash(&self) -> (digest: crate::crypto::Hash)
        ensures
            digest@ == sha256_digest(self.bytes()),
    {
        self.raw.hash()
    }

    /// Whether the signature is accepted for header and body under
    /// `public_key`.
    pub fn verify(&self, public_key: &PublicKey) -> (accepted: bool)
        ensures
            accepted == ed25519_accepts(
                public_key@,
                signed_part_of(self.bytes()),
                signature_of(self.bytes()),
            ),
    {
        self.raw.verify(public_key)
    }

    /// A number that tells equal transactions apart.
    pub fn seed(&self) -> (seed: u64)
        ensures
            seed == self@.seed,
    {
        proof {
            use_type_invariant(self);
        }
        u64::read(self.raw.body(), 0, 8)
    }

    /// The key that owns the asset.
    pub fn asset(&self) -> (key: PublicKey)
        ensures
            key@ == self@.asset,
    {
        proof {
            use_type_invariant(self);
        }
        PublicKey::read(self.raw.body(), 8, 40)
    }

    /// The amount issued.
    pub fn amount(&self) -> (amount: u64)
        ensures
            amount == self@.amount,
    {
        proof {
            use_type_invariant(self);
        }
        u64::read(self.raw.body(), 40, 48)
    }

    /// The name of the asset.
    pub fn name(&self) -> (name: &[u8])
        ensures
            name@ == self@.name,
    {
        proof {
            use_type_invariant(self);
        }
        segment(self.raw.body(), 48, 1)
    }
}

/// What a `TxTransfer` says.
pub struct TxTransferFields {
    pub seed: u64,
    pub from: Seq<u8>,
    pub to: Seq<u8>,
    pub amount: u64,
}

/// Moves an amount from one key to another.
///
/// ```text
/// seed:          u64        [0, 8)
/// from:          PublicKey  [8, 40)
/// to:            PublicKey  [40, 72)
/// amount:        u64        [72, 80)
/// ```
#[derive(Debug, PartialEq, Eq)]
pub struct TxTransfer {
    raw: RawMessage,
}

impl Clone for TxTransfer {
    fn clone(&self) -> (copy: Self)
        ensures
            copy.bytes() == self.bytes(),
    {
        proof {
            use_type_invariant(self);
        }
        TxTransfer { raw: self.raw.clone() }
    }
}

impl View for TxTransfer {
    type V = TxTransferFields;

    open spec fn view(&self) -> TxTransferFields {
        Self::decode(body_of(self.bytes()))
    }
}

impl TxTransfer {
    /// The class tag in the header of every message of this type.
    pub const MESSAGE_CLASS: u8 = TX_CLASS;

    /// The type tag in the header of every message of this type.
    pub const MESSAGE_TYPE: u8 = 1;

    /// Width of the fixed fields.
    pub const FIXED_SIZE: usize = 80;

    #[verifier::type_invariant]
    spec fn well_formed(&self) -> bool {
        Self::decode_error(self.raw@) is None
    }

    /// The envelope's bytes.
    pub closed spec fn bytes(&self) -> Seq<u8> {
        self.raw@
    }

    /// Whether the fields can be written: keys and digests are 32 bytes each.
    pub open spec fn writable(fields: TxTransferFields) -> bool {
        &&& fields.from.len() == 32
        &&& fields.to.len() == 32
    }

    /// The body that holds the fields.
    pub open spec fn encode(fields: TxTransferFields) -> Seq<u8> {
        le_bytes(fields.seed as nat, 8)
            + fields.from
            + fields.to
            + le_bytes(fields.amount as nat, 8)
    }

    /// The fields that a body holds.
    pub open spec fn decode(body: Seq<u8>) -> TxTransferFields {
        TxTransferFields {
            seed: le_value(body.subrange(0, 8)) as u64,
            from: body.subrange(8, 40),
            to: body.subrange(40, 72),
            amount: le_value(body.subrange(72, 80)) as u64,
        }
    }

    /// Why a body does not have the layout of this type, if it has not.
    pub open spec fn layout_error(body: Seq<u8>) -> Option<Error> {
        if body.len() < 80 {
            Some(Error::UnexpectedlyShort)
        } else {
            None
        }
    }

    /// Why an envelope is not a message of this type, if it is not.
    pub open spec fn decode_error(bytes: Seq<u8>) -> Option<Error> {
        if class_of(bytes) != Self::MESSAGE_CLASS || type_of(bytes) != Self::MESSAGE_TYPE {
            Some(Error::IncorrectMessageType)
        } else {
            Self::layout_error(body_of(bytes))
        }
    }

    /// Header and body of the message that says `fields`: what is signed.
    pub open spec fn envelope(fields: TxTransferFields) -> Seq<u8> {
        unsigned_envelope(Self::MESSAGE_CLASS, Self::MESSAGE_TYPE, Self::encode(fields))
    }

    /// A body that was written from fields has the layout of this type, and
    /// each field is read from it as it was written.
    pub proof fn lemma_body_round_trip(fields: TxTransferFields)
        requires
            Self::writable(fields),
        ensures
            Self::encode(fields).len() <= u32::MAX,
            Self::layout_error(Self::encode(fields)) is None,
            Self::decode(Self::encode(fields)) == fields,
    {
        let body = Self::encode(fields);
        lemma_radix_values();
        lemma_le_value_of_bytes(fields.seed as nat, 8);
        lemma_le_value_of_bytes(fields.amount as nat, 8);
        assert(body.subrange(0, 8) =~= le_bytes(fields.seed as nat, 8));
        assert(body.subrange(8, 40) =~= fields.from);
        assert(body.subrange(40, 72) =~= fields.to);
        assert(body.subrange(72, 80) =~= le_bytes(fields.amount as nat, 8));
    }

    /// Writing the fields into an envelope and decoding the envelope gives
    /// the fields back, whatever the 64 bytes of the signature are.
    pub proof fn lemma_round_trip(fields: TxTransferFields, signature: Seq<u8>)
        requires
            Self::writable(fields),
            signature.len() == SIGNATURE_SIZE,
        ensures
            Self::decode_error(Self::envelope(fields) + signature) is None,
            Self::decode(body_of(Self::envelope(fields) + signature)) == fields,
    {
        Self::lemma_body_round_trip(fields);
        lemma_envelope_parts(
            Self::MESSAGE_CLASS,
            Self::MESSAGE_TYPE,
            Self::encode(fields),
            signature,
        );
    }

    /// Builds the message and signs it with `secret_key`.
    pub fn new(
        seed: u64,
        from: &PublicKey,
        to: &PublicKey,
        amount: u64,
        secret_key: &SecretKey,
    ) -> (message: TxTransfer)
        ensures
            message@ == (TxTransferFields {
                seed,
                from: from@,
                to: to@,
                amount,
            }),
            message.bytes() == signed_envelope(
                Self::MESSAGE_CLASS,
                Self::MESSAGE_TYPE,
                Self::encode(message@),
                secret_key@,
            ),
            ed25519_accepts(
                ed25519_public_key(secret_key@),
                signed_part_of(message.bytes()),
                signature_of(message.bytes()),
            ),
    {
        let ghost fields = TxTransferFields {
            seed,
            from: from@,
            to: to@,
            amount,
        };
        let mut writer = MessageWriter::new(Self::FIXED_SIZE);
        writer.write(&seed, 0, 8);
        writer.write(from, 8, 40);
        writer.write(to, 40, 72);
        writer.write(&amount, 72, 80);
        proof {
            lemma_le_bytes_len(seed as nat, 8);
            lemma_le_bytes_len(amount as nat, 8);
            assert(writer.body() =~= Self::encode(fields));
            Self::lemma_body_round_trip(fields);
        }
        let raw = writer.sign(Self::MESSAGE_CLASS, Self::MESSAGE_TYPE, secret_key);
        TxTransfer { raw }
    }

    /// Takes an envelope as a message of this type, if it is one: the tag is
    /// tested first, then the length of the body.
    pub fn from_raw(raw: RawMessage) -> (result: Result<TxTransfer, Error>)
        ensures
            match result {
                Ok(message) => Self::decode_error(raw@) is None && message.bytes() == raw@,
                Err(error) => Self::decode_error(raw@) == Some(error),
            },
    {
        if raw.message_class() != Self::MESSAGE_CLASS || raw.message_type() != Self::MESSAGE_TYPE {
            return Err(Error::IncorrectMessageType);
        }
        let body = raw.body();
        if body.len() < Self::FIXED_SIZE {
            return Err(Error::UnexpectedlyShort);
        }
        Ok(TxTransfer { raw })
    }

    /// The envelope.
    pub fn raw(&self) -> (raw: &RawMessage)
        ensures
            raw@ == self.bytes(),
            Self::decode_error(self.bytes()) is None,
    {
        proof {
            use_type_invariant(self);
        }
        &self.raw
    }

    /// The digest of the whole envelope: the name by which the message is
    /// known.
    pub fn hash(&self) -> (digest: crate::crypto::Hash)
        ensures
            digest@ == sha256_digest(self.bytes()),
    {
        self.raw.hash()
    }

    /// Whether the signature is accepted for header and body under
    /// `public_key`.
    pub fn verify(&self, public_key: &PublicKey) -> (accepted: bool)
        ensures
            accepted == ed25519_accepts(
                public_key@,
                signed_part_of(self.bytes()),
                signature_of(self.bytes()),
            ),
    {
        self.raw.verify(public_key)
    }

    /// A number that tells equal transactions apart.
    pub fn seed(&self) -> (seed: u64)
        ensures
            seed == self@.seed,
    {
        proof {
            use_type_invariant(self);
        }
        u64::read(self.raw.body(), 0, 8)
    }

    /// The key that pays.
    pub fn from(&self) -> (key: PublicKey)
        ensures
            key@ == self@.from,
    {
        proof {
            use_type_invariant(self);
        }
        PublicKey::read(self.raw.body(), 8, 40)
    }

    /// The key that is paid.
    pub fn to(&self) -> (key: PublicKey)
        ensures
            key@ == self@.to,
    {
        proof {
            use_type_invariant(self);
        }
        PublicKey::read(self.raw.body(), 40, 72)
    }

    /// The amount moved.
    pub fn amount(&self) -> (amount: u64)
        ensures
            amount == self@.amount,
    {
        proof {
            use_type_invariant(self);
        }
        u64::read(self.raw.body(), 72, 80)
    }
}

/// What a `TxVoteValidator` says.
pub struct TxVoteValidatorFields {
    pub seed: u64,
    pub pub_key: Seq<u8>,
    pub power: u64,
}

/// Votes on the power of a validator.
///
/// ```text
/// seed:          u64        [0, 8)
/// pub_key:       PublicKey  [8, 40)
/// power:         u64        [40, 48)
/// ```
#[derive(Debug, PartialEq, Eq)]
pub struct TxVoteValidator {
    raw: RawMessage,
}

impl Clone for TxVoteValidator {
    fn clone(&self) -> (copy: Self)
        ensures
            copy.bytes() == self.bytes(),
    {
        proof {
            use_type_invariant(self);
        }
        TxVoteValidator { raw: self.raw.clone() }
    }
}

impl View for TxVoteValidator {
    type V = TxVoteValidatorFields;

    open spec fn view(&self) -> TxVoteValidatorFields {
        Self::decode(body_of(self.bytes()))
    }
}

impl TxVoteValidator {
    /// The class tag in the header of every message of this type.
    pub const MESSAGE_CLASS: u8 = TX_CLASS;

    /// The type tag in the header of every message of this type.
    pub const MESSAGE_TYPE: u8 = 2;

    /// Width of the fixed fields.
    pub const FIXED_SIZE: usize = 48;

    #[verifier::type_invariant]
    spec fn well_formed(&self) -> bool {
        Self::decode_error(self.raw@) is None
    }

    /// The envelope's bytes.
    pub closed spec fn bytes(&self) -> Seq<u8> {
        self.raw@
    }

    /// Whether the fields can be written: keys and digests are 32 bytes each.
    pub open spec fn writable(fields: TxVoteValidatorFields) -> bool {
        &&& fields.pub_key.len() == 32
    }

    /// The body that holds the fields.
    pub open spec fn encode(fields: TxVoteValidatorFields) -> Seq<u8> {
        le_bytes(fields.seed as nat, 8)
            + fields.pub_key
            + le_bytes(fields.power as nat, 8)
    }

    /// The fields that a body holds.
    pub open spec fn decode(body: Seq<u8>) -> TxVoteValidatorFields {
        TxVoteValidatorFields {
            seed: le_value(body.subrange(0, 8)) as u64,
            pub_key: body.subrange(8, 40),
            power: le_value(body.subrange(40, 48)) as u64,
        }
    }

    /// Why a body does not have the layout of this type, if it has not.
    pub open spec fn layout_error(body: Seq<u8>) -> Option<Error> {
        if body.len() < 48 {
            Some(Error::UnexpectedlyShort)
        } else {
            None
        }
    }

    /// Why an envelope is not a message of this type, if it is not.
    pub open spec fn decode_error(bytes: Seq<u8>) -> Option<Error> {
        if class_of(bytes) != Self::MESSAGE_CLASS || type_of(bytes) != Self::MESSAGE_TYPE {
            Some(Error::IncorrectMessageType)
        } else {
            Self::layout_error(body_of(bytes))
        }
    }

    /// Header and body of the message that says `fields`: what is signed.
    pub open spec fn envelope(fields: TxVoteValidatorFields) -> Seq<u8> {
        unsigned_envelope(Self::MESSAGE_CLASS, Self::MESSAGE_TYPE, Self::encode(fields))
    }

    /// A body that was written from fields has the layout of this type, and
    /// each field is read from it as it was written.
    pub proof fn lemma_body_round_trip(fields: TxVoteValidatorFields)
        requires
            Self::writable(fields),
        ensures
            Self::encode(fields).len() <= u32::MAX,
            Self::layout_error(Self::encode(fields)) is None,
            Self::decode(Self::encode(fields)) == fields,
    {
        let body = Self::encode(fields);
        lemma_radix_values();
        lemma_le_value_of_bytes(fields.seed as nat, 8);
        lemma_le_value_of_bytes(fields.power as nat, 8);
        assert(body.subrange(0, 8) =~= le_bytes(fields.seed as nat, 8));
        assert(body.subrange(8, 40) =~= fields.pub_key);
        assert(body.subrange(40, 48) =~= le_bytes(fields.power as nat, 8));
    }

    /// Writing the fields into an envelope and decoding the envelope gives
    /// the fields back, whatever the 64 bytes of the signature are.
    pub proof fn lemma_round_trip(fields: TxVoteValidatorFields, signature: Seq<u8>)
        requires
            Self::writable(fields),
            signature.len() == SIGNATURE_SIZE,
        ensures
            Self::decode_error(Self::envelope(fields) + signature) is None,
            Self::decode(body_of(Self::envelope(fields) + signature)) == fields,
    {
        Self::lemma_body_round_trip(fields);
        lemma_envelope_parts(
            Self::MESSAGE_CLASS,
            Self::MESSAGE_TYPE,
            Self::encode(fields),
            signature,
        );
    }

    /// Builds the message and signs it with `secret_key`.
    pub fn new(
        seed: u64,
        pub_key: &PublicKey,
        power: u64,
        secret_key: &SecretKey,
    ) -> (message: TxVoteValidator)
        ensures
            message@ == (TxVoteValidatorFields {
                seed,
                pub_key: pub_key@,
                power,
            }),
            message.bytes() == signed_envelope(
                Self::MESSAGE_CLASS,
                Self::MESSAGE_TYPE,
                Self::encode(message@),
                secret_key@,
            ),
            ed25519_accepts(
                ed25519_public_key(secret_key@),
                signed_part_of(message.bytes()),
                signature_of(message.bytes()),
            ),
    {
        let ghost fields = TxVoteValidatorFields {
            seed,
            pub_key: pub_key@,
            power,
        };
        let mut writer = MessageWriter::new(Self::FIXED_SIZE);
        writer.write(&seed, 0, 8);
        writer.write(pub_key, 8, 40);
        writer.write(&power, 40, 48);
        proof {
            lemma_le_bytes_len(seed as nat, 8);
            lemma_le_bytes_len(power as nat, 8);
            assert(writer.body() =~= Self::encode(fields));
            Self::lemma_body_round_trip(fields);
        }
        let raw = writer.sign(Self::MESSAGE_CLASS, Self::MESSAGE_TYPE, secret_key);
        TxVoteValidator { raw }
    }

    /// Takes an envelope as a message of this type, if it is one: the tag is
    /// tested first, then the length of the body.
    pub fn from_raw(raw: RawMessage) -> (result: Result<TxVoteValidator, Error>)
        ensures
            match result {
                Ok(message) => Self::decode_error(raw@) is None && message.bytes() == raw@,
                Err(error) => Self::decode_error(raw@) == Some(error),
            },
    {
        if raw.message_class() != Self::MESSAGE_CLASS || raw.message_type() != Self::MESSAGE_TYPE {
            return Err(Error::IncorrectMessageType);
        }
        let body = raw.body();
        if body.len() < Self::FIXED_SIZE {
            return Err(Error::UnexpectedlyShort);
        }
        Ok(TxVoteValidator { raw })
    }

    /// The envelope.
    pub fn raw(&self) -> (raw: &RawMessage)
        ensures
            raw@ == self.bytes(),
            Self::decode_error(self.bytes()) is None,
    {
        proof {
            use_type_invariant(self);
        }
        &self.raw
    }

    /// The digest of the whole envelope: the name by which the message is
    /// known.
    pub fn hash(&self) -> (digest: crate::crypto::Hash)
        ensures
            digest@ == sha256_digest(self.bytes()),
    {
        self.raw.hash()
    }

    /// Whether the signature is accepted for header and body under
    /// `public_key`.
    pub fn verify(&self, public_key: &PublicKey) -> (accepted: bool)
        ensures
            accepted == ed25519_accepts(
                public_key@,
                signed_part_of(self.bytes()),
                signature_of(self.bytes()),
            ),
    {
        self.raw.verify(public_key)
    }

    /// A number that tells equal transactions apart.
    pub fn seed(&self) -> (seed: u64)
        ensures
            seed == self@.seed,
    {
        proof {
            use_type_invariant(self);
        }
        u64::read(self.raw.body(), 0, 8)
    }

    /// The key of the validator voted on.
    pub fn pub_key(&self) -> (key: PublicKey)
        ensures
            key@ == self@.pub_key,
    {
        proof {
            use_type_invariant(self);
        }
        PublicKey::read(self.raw.body(), 8, 40)
    }

    /// The power voted for.
    pub fn power(&self) -> (power: u64)
        ensures
            power == self@.power,
    {
        proof {
            use_type_invariant(self);
        }
        u64::read(self.raw.body(), 40, 48)
    }
}

/// What a `TxVoteConfig` says.
pub struct TxVoteConfigFields {
    pub seed: u64,
    pub key: Seq<u8>,
    pub value: Seq<u8>,
}

/// Votes on a value of the configuration.
///
/// ```text
/// seed:          u64        [0, 8)
/// key:           [u8]       [8, 16)
/// value:         [u8]       [16, 24)
/// ```
#[derive(Debug, PartialEq, Eq)]
pub struct TxVoteConfig {
    raw: RawMessage,
}

impl Clone for TxVoteConfig {
    fn clone(&self) -> (copy: Self)
        ensures
            copy.bytes() == self.bytes(),
    {
        proof {
            use_type_invariant(self);
        }
        TxVoteConfig { raw: self.raw.clone() }
    }
}

impl View for TxVoteConfig {
    type V = TxVoteConfigFields;

    open spec fn view(&self) -> TxVoteConfigFields {
        Self::decode(body_of(self.bytes()))
    }
}

impl TxVoteConfig {
    /// The class tag in the header of every message of this type.
    pub const MESSAGE_CLASS: u8 = TX_CLASS;

    /// The type tag in the header of every message of this type.
    pub const MESSAGE_TYPE: u8 = 3;

    /// Width of the fixed fields.
    pub const FIXED_SIZE: usize = 24;

    #[verifier::type_invariant]
    spec fn well_formed(&self) -> bool {
        Self::decode_error(self.raw@) is None
    }

    /// The envelope's bytes.
    pub closed spec fn bytes(&self) -> Seq<u8> {
        self.raw@
    }

    /// Whether the fields can be written: the body's length fits the header.
    pub open spec fn writable(fields: TxVoteConfigFields) -> bool {
        &&& 24 + fields.key.len() + fields.value.len() <= u32::MAX
    }

    /// The body that holds the fields.
    pub open spec fn encode(fields: TxVoteConfigFields) -> Seq<u8> {
        le_bytes(fields.seed as nat, 8)
            + pointer(24, fields.key.len())
            + pointer((24 + fields.key.len()) as nat, fields.value.len())
            + fields.key
            + fields.value
    }

    /// The fields that a body holds.
    pub open spec fn decode(body: Seq<u8>) -> TxVoteConfigFields {
        TxVoteConfigFields {
            seed: le_value(body.subrange(0, 8)) as u64,
            key: segment_bytes(body, 8, 1),
            value: segment_bytes(body, 16, 1),
        }
    }

    /// Why a body does not have the layout of this type, if it has not.
    pub open spec fn layout_error(body: Seq<u8>) -> Option<Error> {
        if body.len() < 24 {
            Some(Error::UnexpectedlyShort)
        } else if !segment_in_bounds(body, 8, 1, 24) {
            Some(segment_error(body, 8))
        } else if !segment_in_bounds(body, 16, 1, 24) {
            Some(segment_error(body, 16))
        } else {
            None
        }
    }

    /// Why an envelope is not a message of this type, if it is not.
    pub open spec fn decode_error(bytes: Seq<u8>) -> Option<Error> {
        if class_of(bytes) != Self::MESSAGE_CLASS || type_of(bytes) != Self::MESSAGE_TYPE {
            Some(Error::IncorrectMessageType)
        } else {
            Self::layout_error(body_of(bytes))
        }
    }

    /// Header and body of the message that says `fields`: what is signed.
    pub open spec fn envelope(fields: TxVoteConfigFields) -> Seq<u8> {
        unsigned_envelope(Self::MESSAGE_CLASS, Self::MESSAGE_TYPE, Self::encode(fields))
    }

    /// A body that was written from fields has the layout of this type, and
    /// each field is read from it as it was written.
    pub proof fn lemma_body_round_trip(fields: TxVoteConfigFields)
        requires
            Self::writable(fields),
        ensures
            Self::encode(fields).len() <= u32::MAX,
            Self::layout_error(Self::encode(fields)) is None,
            Self::decode(Self::encode(fields)) == fields,
    {
        let body = Self::encode(fields);
        lemma_radix_values();
        lemma_le_value_of_bytes(fields.seed as nat, 8);
        lemma_le_value_of_bytes(24, 4);
        lemma_le_value_of_bytes(fields.key.len(), 4);
        lemma_le_value_of_bytes((24 + fields.key.len()) as nat, 4);
        lemma_le_value_of_bytes(fields.value.len(), 4);
        assert(body.subrange(0, 8) =~= le_bytes(fields.seed as nat, 8));
        assert(body.subrange(8, 12) =~= le_bytes(24, 4));
        assert(body.subrange(12, 16) =~= le_bytes(fields.key.len(), 4));
        assert(body.subrange(16, 20) =~= le_bytes((24 + fields.key.len()) as nat, 4));
        assert(body.subrange(20, 24) =~= le_bytes(fields.value.len(), 4));
        assert(segment_bytes(body, 8, 1) =~= fields.key);
        assert(segment_bytes(body, 16, 1) =~= fields.value);
    }

    /// Writing the fields into an envelope and decoding the envelope gives
    /// the fields back, whatever the 64 bytes of the signature are.
    pub proof fn lemma_round_trip(fields: TxVoteConfigFields, signature: Seq<u8>)
        requires
            Self::writable(fields),
            signature.len() == SIGNATURE_SIZE,
        ensures
            Self::decode_error(Self::envelope(fields) + signature) is None,
            Self::decode(body_of(Self::envelope(fields) + signature)) == fields,
    {
        Self::lemma_body_round_trip(fields);
        lemma_envelope_parts(
            Self::MESSAGE_CLASS,
            Self::MESSAGE_TYPE,
            Self::encode(fields),
            signature,
        );
    }

    /// An envelope with the tag of this type and room for the fixed fields is
    /// refused with `IncorrectSegmentReference` whenever a segment pointer
    /// names bytes past the end of the body.
    pub proof fn lemma_segment_past_end(bytes: Seq<u8>)
        requires
            class_of(bytes) == Self::MESSAGE_CLASS,
            type_of(bytes) == Self::MESSAGE_TYPE,
            body_of(bytes).len() >= 24,
            (pointer_offset(body_of(bytes), 8) + pointer_count(body_of(bytes), 8) * 1
                    > body_of(bytes).len())
                || (pointer_offset(body_of(bytes), 16) + pointer_count(body_of(bytes), 16) * 1
                    > body_of(bytes).len()),
        ensures
            Self::decode_error(bytes) matches Some(Error::IncorrectSegmentReference { .. }),
    {
    }

    /// Builds the message and signs it with `secret_key`.
    pub fn new(
        seed: u64,
        key: &[u8],
        value: &[u8],
        secret_key: &SecretKey,
    ) -> (message: TxVoteConfig)
        requires
            24 + key@.len() + value@.len() <= u32::MAX,
        ensures
            message@ == (TxVoteConfigFields {
                seed,
                key: key@,
                value: value@,
            }),
            message.bytes() == signed_envelope(
                Self::MESSAGE_CLASS,
                Self::MESSAGE_TYPE,
                Self::encode(message@),
                secret_key@,
            ),
            ed25519_accepts(
                ed25519_public_key(secret_key@),
                signed_part_of(message.bytes()),
                signature_of(message.bytes()),
            ),
    {
        let ghost fields = TxVoteConfigFields {
            seed,
            key: key@,
            value: value@,
        };
        let mut writer = MessageWriter::new(Self::FIXED_SIZE);
        writer.write(&seed, 0, 8);
        writer.write_bytes_segment(8, key);
        writer.write_bytes_segment(16, value);
        proof {
            lemma_le_bytes_len(seed as nat, 8);
            lemma_le_bytes_len(24, 4);
            lemma_le_bytes_len(fields.key.len(), 4);
            lemma_le_bytes_len((24 + fields.key.len()) as nat, 4);
            lemma_le_bytes_len(fields.value.len(), 4);
            assert(writer.body() =~= Self::encode(fields));
            Self::lemma_body_round_trip(fields);
        }
        let raw = writer.sign(Self::MESSAGE_CLASS, Self::MESSAGE_TYPE, secret_key);
        TxVoteConfig { raw }
    }

    /// Takes an envelope as a message of this type, if it is one: the tag is
    /// tested first, then the length of the body, then each segment pointer in
    /// turn.
    pub fn from_raw(raw: RawMessage) -> (result: Result<TxVoteConfig, Error>)
        ensures
            match result {
                Ok(message) => Self::decode_error(raw@) is None && message.bytes() == raw@,
                Err(error) => Self::decode_error(raw@) == Some(error),
            },
    {
        if raw.message_class() != Self::MESSAGE_CLASS || raw.message_type() != Self::MESSAGE_TYPE {
            return Err(Error::IncorrectMessageType);
        }
        let body = raw.body();
        if body.len() < Self::FIXED_SIZE {
            return Err(Error::UnexpectedlyShort);
        }
        if let Err(error) = read_segment(body, 8, 1, Self::FIXED_SIZE) {
            return Err(error);
        }
        if let Err(error) = read_segment(body, 16, 1, Self::FIXED_SIZE) {
            return Err(error);
        }
        Ok(TxVoteConfig { raw })
    }

    /// The envelope.
    pub fn raw(&self) -> (raw: &RawMessage)
        ensures
            raw@ == self.bytes(),
            Self::decode_error(self.bytes()) is None,
    {
        proof {
            use_type_invariant(self);
        }
        &self.raw
    }

    /// The digest of the whole envelope: the name by which the message is
    /// known.
    pub fn hash(&self) -> (digest: crate::crypto::Hash)
        ensures
            digest@ == sha256_digest(self.bytes()),
    {
        self.raw.hash()
    }

    /// Whether the signature is accepted for header and body under
    /// `public_key`.
    pub fn verify(&self, public_key: &PublicKey) -> (accepted: bool)
        ensures
            accepted == ed25519_accepts(
                public_key@,
                signed_part_of(self.bytes()),
                signature_of(self.bytes()),
            ),
    {
        self.raw.verify(public_key)
    }

    /// A number that tells equal transactions apart.
    pub fn seed(&self) -> (seed: u64)
        ensures
            seed == self@.seed,
    {
        proof {
            use_type_invariant(self);
        }
        u64::read(self.raw.body(), 0, 8)
    }

    /// The name of the configuration entry.
    pub fn key(&self) -> (key: &[u8])
        ensures
            key@ == self@.key,
    {
        proof {
            use_type_invariant(self);
        }
        segment(self.raw.body(), 8, 1)
    }

    /// The value voted for.
    pub fn value(&self) -> (value: &[u8])
        ensures
            value@ == self@.value,
    {
        proof {
            use_type_invariant(self);
        }
        segment(self.raw.body(), 16, 1)
    }
}

} // verus!

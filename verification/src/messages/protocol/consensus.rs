//! The messages of a consensus round. All four start with the sender, the
//! height and the round, at the same places.

use vstd::prelude::*;
use crate::crypto::{
    ed25519_accepts, ed25519_public_key, sha256_digest, PublicKey, SecretKey, SIGNATURE_SIZE,
};
use crate::messages::error::Error;
use crate::messages::fields::{
    le_bytes, le_value, lemma_le_bytes_len, lemma_le_value_of_bytes, lemma_radix_values, Field,
};
use crate::messages::raw::{
    body_of, class_of, lemma_envelope_parts, signature_of, signed_envelope, signed_part_of,
    type_of, unsigned_envelope, RawMessage,
};
use crate::messages::segment::{
    concat, items, lemma_concat_len, lemma_items_of_concat, pointer, pointer_count,
    pointer_offset, read_segment, segment, segment_bytes, segment_error, segment_in_bounds,
    uniform, Segment,
};
use crate::messages::writer::{encodings, lemma_encodings_uniform, MessageWriter};

verus! {

/// The class tag of the consensus messages.
pub const CONSENSUS_CLASS: u8 = 1;

/// What a `Propose` says.
pub struct ProposeFields {
    pub validator: u32,
    pub height: u64,
    pub round: u32,
    pub propose_hash: Seq<u8>,
    pub prev_hash: Seq<u8>,
    pub transactions: Seq<Seq<u8>>,
}

/// A validator proposes a block for a round.
///
/// ```text
/// validator:     u32        [0, 4)
/// height:        u64        [4, 12)
/// round:         u32        [12, 16)
/// propose_hash:  Hash       [16, 48)
/// prev_hash:     Hash       [48, 80)
/// transactions:  [Hash]     [80, 88)
/// ```
#[derive(Debug, PartialEq, Eq)]
pub struct Propose {
    raw: RawMessage,
}

impl Clone for Propose {
    fn clone(&self) -> (copy: Self)
        ensures
            copy.bytes() == self.bytes(),
    {
        proof {
            use_type_invariant(self);
        }
        Propose { raw: self.raw.clone() }
    }
}

impl View for Propose {
    type V = ProposeFields;

    open spec fn view(&self) -> ProposeFields {
        Self::decode(body_of(self.bytes()))
    }
}

impl Propose {
    /// The class tag in the header of every message of this type.
    pub const MESSAGE_CLASS: u8 = CONSENSUS_CLASS;

    /// The type tag in the header of every message of this type.
    pub const MESSAGE_TYPE: u8 = 0;

    /// Width of the fixed fields.
    pub const FIXED_SIZE: usize = 88;

    #[verifier::type_invariant]
    spec fn well_formed(&self) -> bool {
        Self::decode_error(self.raw@) is None
    }

    /// The envelope's bytes.
    pub closed spec fn bytes(&self) -> Seq<u8> {
        self.raw@
    }

    /// Whether the fields can be written: keys and digests are 32 bytes each
    /// and the body's length fits the header.
    pub open spec fn writable(fields: ProposeFields) -> bool {
        &&& fields.propose_hash.len() == 32
        &&& fields.prev_hash.len() == 32
        &&& uniform(fields.transactions, 32)
        &&& 88 + fields.transactions.len() * 32 <= u32::MAX
    }

    /// The body that holds the fields.
    pub open spec fn encode(fields: ProposeFields) -> Seq<u8> {
        le_bytes(fields.validator as nat, 4)
            + le_bytes(fields.height as nat, 8)
            + le_bytes(fields.round as nat, 4)
            + fields.propose_hash
            + fields.prev_hash
            + pointer(88, fields.transactions.len())
            + concat(fields.transactions)
    }

    /// The fields that a body holds.
    pub open spec fn decode(body: Seq<u8>) -> ProposeFields {
        ProposeFields {
            validator: le_value(body.subrange(0, 4)) as u32,
            height: le_value(body.subrange(4, 12)) as u64,
            round: le_value(body.subrange(12, 16)) as u32,
            propose_hash: body.subrange(16, 48),
            prev_hash: body.subrange(48, 80),
            transactions: items(segment_bytes(body, 80, 32), 32),
        }
    }

    /// Why a body does not have the layout of this type, if it has not.
    pub open spec fn layout_error(body: Seq<u8>) -> Option<Error> {
        if body.len() < 88 {
            Some(Error::UnexpectedlyShort)
        } else if !segment_in_bounds(body, 80, 32, 88) {
            Some(segment_error(body, 80))
        } else {
            None
        }
    }

    /// Why an envelope is not a message of this type, if it is not.
    pub open spec fn decode_error(bytes: Seq<u8>) -> Option<Error> {
        if class_of(bytes) != Self::MESSAGE_CLASS || type_of(bytes) != Self::MESSAGE_TYPE {
            Some(Error::IncorrectMessageType)
        } else {
            Self::layout_error(body_of(bytes))
        }
    }

    /// Header and body of the message that says `fields`: what is signed.
    pub open spec fn envelope(fields: ProposeFields) -> Seq<u8> {
        unsigned_envelope(Self::MESSAGE_CLASS, Self::MESSAGE_TYPE, Self::encode(fields))
    }

    /// A body that was written from fields has the layout of this type, and
    /// each field is read from it as it was written.
    pub proof fn lemma_body_round_trip(fields: ProposeFields)
        requires
            Self::writable(fields),
        ensures
            Self::encode(fields).len() <= u32::MAX,
            Self::layout_error(Self::encode(fields)) is None,
            Self::decode(Self::encode(fields)) == fields,
    {
        let body = Self::encode(fields);
        lemma_radix_values();
        lemma_le_value_of_bytes(fields.validator as nat, 4);
        lemma_le_value_of_bytes(fields.height as nat, 8);
        lemma_le_value_of_bytes(fields.round as nat, 4);
        lemma_le_value_of_bytes(88, 4);
        lemma_le_value_of_bytes(fields.transactions.len(), 4);
        lemma_concat_len(fields.transactions, 32);
        lemma_items_of_concat(fields.transactions, 32);
        assert(body.subrange(0, 4) =~= le_bytes(fields.validator as nat, 4));
        assert(body.subrange(4, 12) =~= le_bytes(fields.height as nat, 8));
        assert(body.subrange(12, 16) =~= le_bytes(fields.round as nat, 4));
        assert(body.subrange(16, 48) =~= fields.propose_hash);
        assert(body.subrange(48, 80) =~= fields.prev_hash);
        assert(body.subrange(80, 84) =~= le_bytes(88, 4));
        assert(body.subrange(84, 88) =~= le_bytes(fields.transactions.len(), 4));
        assert(segment_bytes(body, 80, 32) =~= concat(fields.transactions));
    }

    /// Writing the fields into an envelope and decoding the envelope gives
    /// the fields back, whatever the 64 bytes of the signature are.
    pub proof fn lemma_round_trip(fields: ProposeFields, signature: Seq<u8>)
        requires
            Self::writable(fields),
            signature.len() == SIGNATURE_SIZE,
        ensures
            Self::decode_error(Self::envelope(fields) + signature) is None,
            Self::decode(body_of(Self::envelope(fields) + signature)) == fields,
    {
        Self::lemma_body_round_trip(fields);
        lemma_envelope_parts(
            Self::MESSAGE_CLASS,
            Self::MESSAGE_TYPE,
            Self::encode(fields),
            signature,
        );
    }

    /// An envelope with the tag of this type and room for the fixed fields is
    /// refused with `IncorrectSegmentReference` whenever a segment pointer
    /// names bytes past the end of the body.
    pub proof fn lemma_segment_past_end(bytes: Seq<u8>)
        requires
            class_of(bytes) == Self::MESSAGE_CLASS,
            type_of(bytes) == Self::MESSAGE_TYPE,
            body_of(bytes).len() >= 88,
            pointer_offset(body_of(bytes), 80) + pointer_count(body_of(bytes), 80) * 32
                > body_of(bytes).len(),
        ensures
            Self::decode_error(bytes) matches Some(Error::IncorrectSegmentReference { .. }),
    {
    }

    /// Builds the message and signs it with `secret_key`.
    pub fn new(
        validator: u32,
        height: u64,
        round: u32,
        propose_hash: &crate::crypto::Hash,
        prev_hash: &crate::crypto::Hash,
        transactions: &[crate::crypto::Hash],
        secret_key: &SecretKey,
    ) -> (message: Propose)
        requires
            88 + transactions@.len() * 32 <= u32::MAX,
        ensures
            message@ == (ProposeFields {
                validator,
                height,
                round,
                propose_hash: propose_hash@,
                prev_hash: prev_hash@,
                transactions: encodings(transactions@),
            }),
            message.bytes() == signed_envelope(
                Self::MESSAGE_CLASS,
                Self::MESSAGE_TYPE,
                Self::encode(message@),
                secret_key@,
            ),
            ed25519_accepts(
                ed25519_public_key(secret_key@),
                signed_part_of(message.bytes()),
                signature_of(message.bytes()),
            ),
    {
        let ghost fields = ProposeFields {
            validator,
            height,
            round,
            propose_hash: propose_hash@,
            prev_hash: prev_hash@,
            transactions: encodings(transactions@),
        };
        let mut writer = MessageWriter::new(Self::FIXED_SIZE);
        writer.write(&validator, 0, 4);
        writer.write(&height, 4, 12);
        writer.write(&round, 12, 16);
        writer.write(propose_hash, 16, 48);
        writer.write(prev_hash, 48, 80);
        writer.write_items(80, transactions);
        proof {
            lemma_le_bytes_len(validator as nat, 4);
            lemma_le_bytes_len(height as nat, 8);
            lemma_le_bytes_len(round as nat, 4);
            lemma_le_bytes_len(88, 4);
            lemma_le_bytes_len(fields.transactions.len(), 4);
            lemma_encodings_uniform(transactions@);
            lemma_concat_len(fields.transactions, 32);
            assert(writer.body() =~= Self::encode(fields));
            Self::lemma_body_round_trip(fields);
        }
        let raw = writer.sign(Self::MESSAGE_CLASS, Self::MESSAGE_TYPE, secret_key);
        Propose { raw }
    }

    /// Takes an envelope as a message of this type, if it is one: the tag is
    /// tested first, then the length of the body, then each segment pointer in
    /// turn.
    pub fn from_raw(raw: RawMessage) -> (result: Result<Propose, Error>)
        ensures
            match result {
                Ok(message) => Self::decode_error(raw@) is None && message.bytes() == raw@,
                Err(error) => Self::decode_error(raw@) == Some(error),
            },
    {
        if raw.message_class() != Self::MESSAGE_CLASS || raw.message_type() != Self::MESSAGE_TYPE {
            return Err(Error::IncorrectMessageType);
        }
        let body = raw.body();
        if body.len() < Self::FIXED_SIZE {
            return Err(Error::UnexpectedlyShort);
        }
        if let Err(error) = read_segment(body, 80, 32, Self::FIXED_SIZE) {
            return Err(error);
        }
        Ok(Propose { raw })
    }

    /// The envelope.
    pub fn raw(&self) -> (raw: &RawMessage)
        ensures
            raw@ == self.bytes(),
            Self::decode_error(self.bytes()) is None,
    {
        proof {
            use_type_invariant(self);
        }
        &self.raw
    }

    /// The digest of the whole envelope: the name by which the message is
    /// known.
    pub fn hash(&self) -> (digest: crate::crypto::Hash)
        ensures
            digest@ == sha256_digest(self.bytes()),
    {
        self.raw.hash()
    }

    /// Whether the signature is accepted for header and body under
    /// `public_key`.
    pub fn verify(&self, public_key: &PublicKey) -> (accepted: bool)
        ensures
            accepted == ed25519_accepts(
                public_key@,
                signed_part_of(self.bytes()),
                signature_of(self.bytes()),
            ),
    {
        self.raw.verify(public_key)
    }

    /// The validator that sent the message.
    pub fn validator(&self) -> (validator: u32)
        ensures
            validator == self@.validator,
    {
        proof {
            use_type_invariant(self);
        }
        u32::read(self.raw.body(), 0, 4)
    }

    /// The height that the message is for.
    pub fn height(&self) -> (height: u64)
        ensures
            height == self@.height,
    {
        proof {
            use_type_invariant(self);
        }
        u64::read(self.raw.body(), 4, 12)
    }

    /// The round that the message is for.
    pub fn round(&self) -> (round: u32)
        ensures
            round == self@.round,
    {
        proof {
            use_type_invariant(self);
        }
        u32::read(self.raw.body(), 12, 16)
    }

    /// The digest of the proposal.
    pub fn propose_hash(&self) -> (digest: crate::crypto::Hash)
        ensures
            digest@ == self@.propose_hash,
    {
        proof {
            use_type_invariant(self);
        }
        crate::crypto::Hash::read(self.raw.body(), 16, 48)
    }

    /// The digest of the block before.
    pub fn prev_hash(&self) -> (digest: crate::crypto::Hash)
        ensures
            digest@ == self@.prev_hash,
    {
        proof {
            use_type_invariant(self);
        }
        crate::crypto::Hash::read(self.raw.body(), 48, 80)
    }

    /// The digests of the proposed transactions, in order.
    pub fn transactions(&self) -> (transactions: Segment<'_, crate::crypto::Hash>)
        ensures
            transactions@ == self@.transactions,
    {
        proof {
            use_type_invariant(self);
        }
        Segment::new(segment(self.raw.body(), 80, 32))
    }
}

/// What a `Prevote` says.
pub struct PrevoteFields {
    pub validator: u32,
    pub height: u64,
    pub round: u32,
    pub propose_hash: Seq<u8>,
    pub locked_round: u32,
}

/// A validator votes for a proposal.
///
/// ```text
/// validator:     u32        [0, 4)
/// height:        u64        [4, 12)
/// round:         u32        [12, 16)
/// propose_hash:  Hash       [16, 48)
/// locked_round:  u32        [48, 52)
/// ```
#[derive(Debug, PartialEq, Eq)]
pub struct Prevote {
    raw: RawMessage,
}

impl Clone for Prevote {
    fn clone(&self) -> (copy: Self)
        ensures
            copy.bytes() == self.bytes(),
    {
        proof {
            use_type_invariant(self);
        }
        Prevote { raw: self.raw.clone() }
    }
}

impl View for Prevote {
    type V = PrevoteFields;

    open spec fn view(&self) -> PrevoteFields {
        Self::decode(body_of(self.bytes()))
    }
}

impl Prevote {
    /// The class tag in the header of every message of this type.
    pub const MESSAGE_CLASS: u8 = CONSENSUS_CLASS;

    /// The type tag in the header of every message of this type.
    pub const MESSAGE_TYPE: u8 = 1;

    /// Width of the fixed fields.
    pub const FIXED_SIZE: usize = 52;

    #[verifier::type_invariant]
    spec fn well_formed(&self) -> bool {
        Self::decode_error(self.raw@) is None
    }

    /// The envelope's bytes.
    pub closed spec fn bytes(&self) -> Seq<u8> {
        self.raw@
    }

    /// Whether the fields can be written: keys and digests are 32 bytes each.
    pub open spec fn writable(fields: PrevoteFields) -> bool {
        &&& fields.propose_hash.len() == 32
    }

    /// The body that holds the fields.
    pub open spec fn encode(fields: PrevoteFields) -> Seq<u8> {
        le_bytes(fields.validator as nat, 4)
            + le_bytes(fields.height as nat, 8)
            + le_bytes(fields.round as nat, 4)
            + fields.propose_hash
            + le_bytes(fields.locked_round as nat, 4)
    }

    /// The fields that a body holds.
    pub open spec fn decode(body: Seq<u8>) -> PrevoteFields {
        PrevoteFields {
            validator: le_value(body.subrange(0, 4)) as u32,
            height: le_value(body.subrange(4, 12)) as u64,
            round: le_value(body.subrange(12, 16)) as u32,
            propose_hash: body.subrange(16, 48),
            locked_round: le_value(body.subrange(48, 52)) as u32,
        }
    }

    /// Why a body does not have the layout of this type, if it has not.
    pub open spec fn layout_error(body: Seq<u8>) -> Option<Error> {
        if body.len() < 52 {
            Some(Error::UnexpectedlyShort)
        } else {
            None
        }
    }

    /// Why an envelope is not a message of this type, if it is not.
    pub open spec fn decode_error(bytes: Seq<u8>) -> Option<Error> {
        if class_of(bytes) != Self::MESSAGE_CLASS || type_of(bytes) != Self::MESSAGE_TYPE {
            Some(Error::IncorrectMessageType)
        } else {
            Self::layout_error(body_of(bytes))
        }
    }

    /// Header and body of the message that says `fields`: what is signed.
    pub open spec fn envelope(fields: PrevoteFields) -> Seq<u8> {
        unsigned_envelope(Self::MESSAGE_CLASS, Self::MESSAGE_TYPE, Self::encode(fields))
    }

    /// A body that was written from fields has the layout of this type, and
    /// each field is read from it as it was written.
    pub proof fn lemma_body_round_trip(fields: PrevoteFields)
        requires
            Self::writable(fields),
        ensures
            Self::encode(fields).len() <= u32::MAX,
            Self::layout_error(Self::encode(fields)) is None,
            Self::decode(Self::encode(fields)) == fields,
    {
        let body = Self::encode(fields);
        lemma_radix_values();
        lemma_le_value_of_bytes(fields.validator as nat, 4);
        lemma_le_value_of_bytes(fields.height as nat, 8);
        lemma_le_value_of_bytes(fields.round as nat, 4);
        lemma_le_value_of_bytes(fields.locked_round as nat, 4);
        assert(body.subrange(0, 4) =~= le_bytes(fields.validator as nat, 4));
        assert(body.subrange(4, 12) =~= le_bytes(fields.height as nat, 8));
        assert(body.subrange(12, 16) =~= le_bytes(fields.round as nat, 4));
        assert(body.subrange(16, 48) =~= fields.propose_hash);
        assert(body.subrange(48, 52) =~= le_bytes(fields.locked_round as nat, 4));
    }

    /// Writing the fields into an envelope and decoding the envelope gives
    /// the fields back, whatever the 64 bytes of the signature are.
    pub proof fn lemma_round_trip(fields: PrevoteFields, signature: Seq<u8>)
        requires
            Self::writable(fields),
            signature.len() == SIGNATURE_SIZE,
        ensures
            Self::decode_error(Self::envelope(fields) + signature) is None,
            Self::decode(body_of(Self::envelope(fields) + signature)) == fields,
    {
        Self::lemma_body_round_trip(fields);
        lemma_envelope_parts(
            Self::MESSAGE_CLASS,
            Self::MESSAGE_TYPE,
            Self::encode(fields),
            signature,
        );
    }

    /// Builds the message and signs it with `secret_key`.
    pub fn new(
        validator: u32,
        height: u64,
        round: u32,
        propose_hash: &crate::crypto::Hash,
        locked_round: u32,
        secret_key: &SecretKey,
    ) -> (message: Prevote)
        ensures
            message@ == (PrevoteFields {
                validator,
                height,
                round,
                propose_hash: propose_hash@,
                locked_round,
            }),
            message.bytes() == signed_envelope(
                Self::MESSAGE_CLASS,
                Self::MESSAGE_TYPE,
                Self::encode(message@),
                secret_key@,
            ),
            ed25519_accepts(
                ed25519_public_key(secret_key@),
                signed_part_of(message.bytes()),
                signature_of(message.bytes()),
            ),
    {
        let ghost fields = PrevoteFields {
            validator,
            height,
            round,
            propose_hash: propose_hash@,
            locked_round,
        };
        let mut writer = MessageWriter::new(Self::FIXED_SIZE);
        writer.write(&validator, 0, 4);
        writer.write(&height, 4, 12);
        writer.write(&round, 12, 16);
        writer.write(propose_hash, 16, 48);
        writer.write(&locked_round, 48, 52);
        proof {
            lemma_le_bytes_len(validator as nat, 4);
            lemma_le_bytes_len(height as nat, 8);
            lemma_le_bytes_len(round as nat, 4);
            lemma_le_bytes_len(locked_round as nat, 4);
            assert(writer.body() =~= Self::encode(fields));
            Self::lemma_body_round_trip(fields);
        }
        let raw = writer.sign(Self::MESSAGE_CLASS, Self::MESSAGE_TYPE, secret_key);
        Prevote { raw }
    }

    /// Takes an envelope as a message of this type, if it is one: the tag is
    /// tested first, then the length of the body.
    pub fn from_raw(raw: RawMessage) -> (result: Result<Prevote, Error>)
        ensures
            match result {
                Ok(message) => Self::decode_error(raw@) is None && message.bytes() == raw@,
                Err(error) => Self::decode_error(raw@) == Some(error),
            },
    {
        if raw.message_class() != Self::MESSAGE_CLASS || raw.message_type() != Self::MESSAGE_TYPE {
            return Err(Error::IncorrectMessageType);
        }
        let body = raw.body();
        if body.len() < Self::FIXED_SIZE {
            return Err(Error::UnexpectedlyShort);
        }
        Ok(Prevote { raw })
    }

    /// The envelope.
    pub fn raw(&self) -> (raw: &RawMessage)
        ensures
            raw@ == self.bytes(),
            Self::decode_error(self.bytes()) is None,
    {
        proof {
            use_type_invariant(self);
        }
        &self.raw
    }

    /// The digest of the whole envelope: the name by which the message is
    /// known.
    pub fn hash(&self) -> (digest: crate::crypto::Hash)
        ensures
            digest@ == sha256_digest(self.bytes()),
    {
        self.raw.hash()
    }

    /// Whether the signature is accepted for header and body under
    /// `public_key`.
    pub fn verify(&self, public_key: &PublicKey) -> (accepted: bool)
        ensures
            accepted == ed25519_accepts(
                public_key@,
                signed_part_of(self.bytes()),
                signature_of(self.bytes()),
            ),
    {
        self.raw.verify(public_key)
    }

    /// The validator that sent the message.
    pub fn validator(&self) -> (validator: u32)
        ensures
            validator == self@.validator,
    {
        proof {
            use_type_invariant(self);
        }
        u32::read(self.raw.body(), 0, 4)
    }

    /// The height that the message is for.
    pub fn height(&self) -> (height: u64)
        ensures
            height == self@.height,
    {
        proof {
            use_type_invariant(self);
        }
        u64::read(self.raw.body(), 4, 12)
    }

    /// The round that the message is for.
    pub fn round(&self) -> (round: u32)
        ensures
            round == self@.round,
    {
        proof {
            use_type_invariant(self);
        }
        u32::read(self.raw.body(), 12, 16)
    }

    /// The digest of the proposal voted for.
    pub fn propose_hash(&self) -> (digest: crate::crypto::Hash)
        ensures
            digest@ == self@.propose_hash,
    {
        proof {
            use_type_invariant(self);
        }
        crate::crypto::Hash::read(self.raw.body(), 16, 48)
    }

    /// The round in which the validator locked on a proposal.
    pub fn locked_round(&self) -> (round: u32)
        ensures
            round == self@.locked_round,
    {
        proof {
            use_type_invariant(self);
        }
        u32::read(self.raw.body(), 48, 52)
    }
}

/// What a `Precommit` says.
pub struct PrecommitFields {
    pub validator: u32,
    pub height: u64,
    pub round: u32,
    pub propose_hash: Seq<u8>,
    pub block_hash: Seq<u8>,
}

/// A validator is ready to commit a block.
///
/// ```text
/// validator:     u32        [0, 4)
/// height:        u64        [4, 12)
/// round:         u32        [12, 16)
/// propose_hash:  Hash       [16, 48)
/// block_hash:    Hash       [48, 80)
/// ```
#[derive(Debug, PartialEq, Eq)]
pub struct Precommit {
    raw: RawMessage,
}

impl Clone for Precommit {
    fn clone(&self) -> (copy: Self)
        ensures
            copy.bytes() == self.bytes(),
    {
        proof {
            use_type_invariant(self);
        }
        Precommit { raw: self.raw.clone() }
    }
}

impl View for Precommit {
    type V = PrecommitFields;

    open spec fn view(&self) -> PrecommitFields {
        Self::decode(body_of(self.bytes()))
    }
}

impl Precommit {
    /// The class tag in the header of every message of this type.
    pub const MESSAGE_CLASS: u8 = CONSENSUS_CLASS;

    /// The type tag in the header of every message of this type.
    pub const MESSAGE_TYPE: u8 = 2;

    /// Width of the fixed fields.
    pub const FIXED_SIZE: usize = 80;

    #[verifier::type_invariant]
    spec fn well_formed(&self) -> bool {
        Self::decode_error(self.raw@) is None
    }

    /// The envelope's bytes.
    pub closed spec fn bytes(&self) -> Seq<u8> {
        self.raw@
    }

    /// Whether the fields can be written: keys and digests are 32 bytes each.
    pub open spec fn writable(fields: PrecommitFields) -> bool {
        &&& fields.propose_hash.len() == 32
        &&& fields.block_hash.len() == 32
    }

    /// The body that holds the fields.
    pub open spec fn encode(fields: PrecommitFields) -> Seq<u8> {
        le_bytes(fields.validator as nat, 4)
            + le_bytes(fields.height as nat, 8)
            + le_bytes(fields.round as nat, 4)
            + fields.propose_hash
            + fields.block_hash
    }

    /// The fields that a body holds.
    pub open spec fn decode(body: Seq<u8>) -> PrecommitFields {
        PrecommitFields {
            validator: le_value(body.subrange(0, 4)) as u32,
            height: le_value(body.subrange(4, 12)) as u64,
            round: le_value(body.subrange(12, 16)) as u32,
            propose_hash: body.subrange(16, 48),
            block_hash: body.subrange(48, 80),
        }
    }

    /// Why a body does not have the layout of this type, if it has not.
    pub open spec fn layout_error(body: Seq<u8>) -> Option<Error> {
        if body.len() < 80 {
            Some(Error::UnexpectedlyShort)
        } else {
            None
        }
    }

    /// Why an envelope is not a message of this type, if it is not.
    pub open spec fn decode_error(bytes: Seq<u8>) -> Option<Error> {
        if class_of(bytes) != Self::MESSAGE_CLASS || type_of(bytes) != Self::MESSAGE_TYPE {
            Some(Error::IncorrectMessageType)
        } else {
            Self::layout_error(body_of(bytes))
        }
    }

    /// Header and body of the message that says `fields`: what is signed.
    pub open spec fn envelope(fields: PrecommitFields) -> Seq<u8> {
        unsigned_envelope(Self::MESSAGE_CLASS, Self::MESSAGE_TYPE, Self::encode(fields))
    }

    /// A body that was written from fields has the layout of this type, and
    /// each field is read from it as it was written.
    pub proof fn lemma_body_round_trip(fields: PrecommitFields)
        requires
            Self::writable(fields),
        ensures
            Self::encode(fields).len() <= u32::MAX,
            Self::layout_error(Self::encode(fields)) is None,
            Self::decode(Self::encode(fields)) == fields,
    {
        let body = Self::encode(fields);
        lemma_radix_values();
        lemma_le_value_of_bytes(fields.validator as nat, 4);
        lemma_le_value_of_bytes(fields.height as nat, 8);
        lemma_le_value_of_bytes(fields.round as nat, 4);
        assert(body.subrange(0, 4) =~= le_bytes(fields.validator as nat, 4));
        assert(body.subrange(4, 12) =~= le_bytes(fields.height as nat, 8));
        assert(body.subrange(12, 16) =~= le_bytes(fields.round as nat, 4));
        assert(body.subrange(16, 48) =~= fields.propose_hash);
        assert(body.subrange(48, 80) =~= fields.block_hash);
    }

    /// Writing the fields into an envelope and decoding the envelope gives
    /// the fields back, whatever the 64 bytes of the signature are.
    pub proof fn lemma_round_trip(fields: PrecommitFields, signature: Seq<u8>)
        requires
            Self::writable(fields),
            signature.len() == SIGNATURE_SIZE,
        ensures
            Self::decode_error(Self::envelope(fields) + signature) is None,
            Self::decode(body_of(Self::envelope(fields) + signature)) == fields,
    {
        Self::lemma_body_round_trip(fields);
        lemma_envelope_parts(
            Self::MESSAGE_CLASS,
            Self::MESSAGE_TYPE,
            Self::encode(fields),
            signature,
        );
    }

    /// Builds the message and signs it with `secret_key`.
    pub fn new(
        validator: u32,
        height: u64,
        round: u32,
        propose_hash: &crate::crypto::Hash,
        block_hash: &crate::crypto::Hash,
        secret_key: &SecretKey,
    ) -> (message: Precommit)
        ensures
            message@ == (PrecommitFields {
                validator,
                height,
                round,
                propose_hash: propose_hash@,
                block_hash: block_hash@,
            }),
            message.bytes() == signed_envelope(
                Self::MESSAGE_CLASS,
                Self::MESSAGE_TYPE,
                Self::encode(message@),
                secret_key@,
            ),
            ed25519_accepts(
                ed25519_public_key(secret_key@),
                signed_part_of(message.bytes()),
                signature_of(message.bytes()),
            ),
    {
        let ghost fields = PrecommitFields {
            validator,
            height,
            round,
            propose_hash: propose_hash@,
            block_hash: block_hash@,
        };
        let mut writer = MessageWriter::new(Self::FIXED_SIZE);
        writer.write(&validator, 0, 4);
        writer.write(&height, 4, 12);
        writer.write(&round, 12, 16);
        writer.write(propose_hash, 16, 48);
        writer.write(block_hash, 48, 80);
        proof {
            lemma_le_bytes_len(validator as nat, 4);
            lemma_le_bytes_len(height as nat, 8);
            lemma_le_bytes_len(round as nat, 4);
            assert(writer.body() =~= Self::encode(fields));
            Self::lemma_body_round_trip(fields);
        }
        let raw = writer.sign(Self::MESSAGE_CLASS, Self::MESSAGE_TYPE, secret_key);
        Precommit { raw }
    }

    /// Takes an envelope as a message of this type, if it is one: the tag is
    /// tested first, then the length of the body.
    pub fn from_raw(raw: RawMessage) -> (result: Result<Precommit, Error>)
        ensures
            match result {
                Ok(message) => Self::decode_error(raw@) is None && message.bytes() == raw@,
                Err(error) => Self::decode_error(raw@) == Some(error),
            },
    {
        if raw.message_class() != Self::MESSAGE_CLASS || raw.message_type() != Self::MESSAGE_TYPE {
            return Err(Error::IncorrectMessageType);
        }
        let body = raw.body();
        if body.len() < Self::FIXED_SIZE {
            return Err(Error::UnexpectedlyShort);
        }
        Ok(Precommit { raw })
    }

    /// The envelope.
    pub fn raw(&self) -> (raw: &RawMessage)
        ensures
            raw@ == self.bytes(),
            Self::decode_error(self.bytes()) is None,
    {
        proof {
            use_type_invariant(self);
        }
        &self.raw
    }

    /// The digest of the whole envelope: the name by which the message is
    /// known.
    pub fn hash(&self) -> (digest: crate::crypto::Hash)
        ensures
            digest@ == sha256_digest(self.bytes()),
    {
        self.raw.hash()
    }

    /// Whether the signature is accepted for header and body under
    /// `public_key`.
    pub fn verify(&self, public_key: &PublicKey) -> (accepted: bool)
        ensures
            accepted == ed25519_accepts(
                public_key@,
                signed_part_of(self.bytes()),
                signature_of(self.bytes()),
            ),
    {
        self.raw.verify(public_key)
    }

    /// The validator that sent the message.
    pub fn validator(&self) -> (validator: u32)
        ensures
            validator == self@.validator,
    {
        proof {
            use_type_invariant(self);
        }
        u32::read(self.raw.body(), 0, 4)
    }

    /// The height that the message is for.
    pub fn height(&self) -> (height: u64)
        ensures
            height == self@.height,
    {
        proof {
            use_type_invariant(self);
        }
        u64::read(self.raw.body(), 4, 12)
    }

    /// The round that the message is for.
    pub fn round(&self) -> (round: u32)
        ensures
            round == self@.round,
    {
        proof {
            use_type_invariant(self);
        }
        u32::read(self.raw.body(), 12, 16)
    }

    /// The digest of the proposal.
    pub fn propose_hash(&self) -> (digest: crate::crypto::Hash)
        ensures
            digest@ == self@.propose_hash,
    {
        proof {
            use_type_invariant(self);
        }
        crate::crypto::Hash::read(self.raw.body(), 16, 48)
    }

    /// The digest of the block that the proposal leads to.
    pub fn block_hash(&self) -> (digest: crate::crypto::Hash)
        ensures
            digest@ == self@.block_hash,
    {
        proof {
            use_type_invariant(self);
        }
        crate::crypto::Hash::read(self.raw.body(), 48, 80)
    }
}

/// What a `Commit` says.
pub struct CommitFields {
    pub validator: u32,
    pub height: u64,
    pub round: u32,
    pub block_hash: Seq<u8>,
}

/// A validator has committed a block.
///
/// ```text
/// validator:     u32        [0, 4)
/// height:        u64        [4, 12)
/// round:         u32        [12, 16)
/// block_hash:    Hash       [16, 48)
/// ```
#[derive(Debug, PartialEq, Eq)]
pub struct Commit {
    raw: RawMessage,
}

impl Clone for Commit {
    fn clone(&self) -> (copy: Self)
        ensures
            copy.bytes() == self.bytes(),
    {
        proof {
            use_type_invariant(self);
        }
        Commit { raw: self.raw.clone() }
    }
}

impl View for Commit {
    type V = CommitFields;

    open spec fn view(&self) -> CommitFields {
        Self::decode(body_of(self.bytes()))
    }
}

impl Commit {
    /// The class tag in the header of every message of this type.
    pub const MESSAGE_CLASS: u8 = CONSENSUS_CLASS;

    /// The type tag in the header of every message of this type.
    pub const MESSAGE_TYPE: u8 = 3;

    /// Width of the fixed fields.
    pub const FIXED_SIZE: usize = 48;

    #[verifier::type_invariant]
    spec fn well_formed(&self) -> bool {
        Self::decode_error(self.raw@) is None
    }

    /// The envelope's bytes.
    pub closed spec fn bytes(&self) -> Seq<u8> {
        self.raw@
    }

    /// Whether the fields can be written: keys and digests are 32 bytes each.
    pub open spec fn writable(fields: CommitFields) -> bool {
        &&& fields.block_hash.len() == 32
    }

    /// The body that holds the fields.
    pub open spec fn encode(fields: CommitFields) -> Seq<u8> {
        le_bytes(fields.validator as nat, 4)
            + le_bytes(fields.height as nat, 8)
            + le_bytes(fields.round as nat, 4)
            + fields.block_hash
    }

    /// The fields that a body holds.
    pub open spec fn decode(body: Seq<u8>) -> CommitFields {
        CommitFields {
            validator: le_value(body.subrange(0, 4)) as u32,
            height: le_value(body.subrange(4, 12)) as u64,
            round: le_value(body.subrange(12, 16)) as u32,
            block_hash: body.subrange(16, 48),
        }
    }

    /// Why a body does not have the layout of this type, if it has not.
    pub open spec fn layout_error(body: Seq<u8>) -> Option<Error> {
        if body.len() < 48 {
            Some(Error::UnexpectedlyShort)
        } else {
            None
        }
    }

    /// Why an envelope is not a message of this type, if it is not.
    pub open spec fn decode_error(bytes: Seq<u8>) -> Option<Error> {
        if class_of(bytes) != Self::MESSAGE_CLASS || type_of(bytes) != Self::MESSAGE_TYPE {
            Some(Error::IncorrectMessageType)
        } else {
            Self::layout_error(body_of(bytes))
        }
    }

    /// Header and body of the message that says `fields`: what is signed.
    pub open spec fn envelope(fields: CommitFields) -> Seq<u8> {
        unsigned_envelope(Self::MESSAGE_CLASS, Self::MESSAGE_TYPE, Self::encode(fields))
    }

    /// A body that was written from fields has the layout of this type, and
    /// each field is read from it as it was written.
    pub proof fn lemma_body_round_trip(fields: CommitFields)
        requires
            Self::writable(fields),
        ensures
            Self::encode(fields).len() <= u32::MAX,
            Self::layout_error(Self::encode(fields)) is None,
            Self::decode(Self::encode(fields)) == fields,
    {
        let body = Self::encode(fields);
        lemma_radix_values();
        lemma_le_value_of_bytes(fields.validator as nat, 4);
        lemma_le_value_of_bytes(fields.height as nat, 8);
        lemma_le_value_of_bytes(fields.round as nat, 4);
        assert(body.subrange(0, 4) =~= le_bytes(fields.validator as nat, 4));
        assert(body.subrange(4, 12) =~= le_bytes(fields.height as nat, 8));
        assert(body.subrange(12, 16) =~= le_bytes(fields.round as nat, 4));
        assert(body.subrange(16, 48) =~= fields.block_hash);
    }

    /// Writing the fields into an envelope and decoding the envelope gives
    /// the fields back, whatever the 64 bytes of the signature are.
    pub proof fn lemma_round_trip(fields: CommitFields, signature: Seq<u8>)
        requires
            Self::writable(fields),
            signature.len() == SIGNATURE_SIZE,
        ensures
            Self::decode_error(Self::envelope(fields) + signature) is None,
            Self::decode(body_of(Self::envelope(fields) + signature)) == fields,
    {
        Self::lemma_body_round_trip(fields);
        lemma_envelope_parts(
            Self::MESSAGE_CLASS,
            Self::MESSAGE_TYPE,
            Self::encode(fields),
            signature,
        );
    }

    /// Builds the message and signs it with `secret_key`.
    pub fn new(
        validator: u32,
        height: u64,
        round: u32,
        block_hash: &crate::crypto::Hash,
        secret_key: &SecretKey,
    ) -> (message: Commit)
        ensures
            message@ == (CommitFields {
                validator,
                height,
                round,
                block_hash: block_hash@,
            }),
            message.bytes() == signed_envelope(
                Self::MESSAGE_CLASS,
                Self::MESSAGE_TYPE,
                Self::encode(message@),
                secret_key@,
            ),
            ed25519_accepts(
                ed25519_public_key(secret_key@),
                signed_part_of(message.bytes()),
                signature_of(message.bytes()),
            ),
    {
        let ghost fields = CommitFields {
            validator,
            height,
            round,
            block_hash: block_hash@,
        };
        let mut writer = MessageWriter::new(Self::FIXED_SIZE);
        writer.write(&validator, 0, 4);
        writer.write(&height, 4, 12);
        writer.write(&round, 12, 16);
        writer.write(block_hash, 16, 48);
        proof {
            lemma_le_bytes_len(validator as nat, 4);
            lemma_le_bytes_len(height as nat, 8);
            lemma_le_bytes_len(round as nat, 4);
            assert(writer.body() =~= Self::encode(fields));
            Self::lemma_body_round_trip(fields);
        }
        let raw = writer.sign(Self::MESSAGE_CLASS, Self::MESSAGE_TYPE, secret_key);
        Commit { raw }
    }

    /// Takes an envelope as a message of this type, if it is one: the tag is
    /// tested first, then the length of the body.
    pub fn from_raw(raw: RawMessage) -> (result: Result<Commit, Error>)
        ensures
            match result {
                Ok(message) => Self::decode_error(raw@) is None && message.bytes() == raw@,
                Err(error) => Self::decode_error(raw@) == Some(error),
            },
    {
        if raw.message_class() != Self::MESSAGE_CLASS || raw.message_type() != Self::MESSAGE_TYPE {
            return Err(Error::IncorrectMessageType);
        }
        let body = raw.body();
        if body.len() < Self::FIXED_SIZE {
            return Err(Error::UnexpectedlyShort);
        }
        Ok(Commit { raw })
    }

    /// The envelope.
    pub fn raw(&self) -> (raw: &RawMessage)
        ensures
            raw@ == self.bytes(),
            Self::decode_error(self.bytes()) is None,
    {
        proof {
            use_type_invariant(self);
        }
        &self.raw
    }

    /// The digest of the whole envelope: the name by which the message is
    /// known.
    pub fn hash(&self) -> (digest: crate::crypto::Hash)
        ensures
            digest@ == sha256_digest(self.bytes()),
    {
        self.raw.hash()
    }

    /// Whether the signature is accepted for header and body under
    /// `public_key`.
    pub fn verify(&self, public_key: &PublicKey) -> (accepted: bool)
        ensures
            accepted == ed25519_accepts(
                public_key@,
                signed_part_of(self.bytes()),
                signature_of(self.bytes()),
            ),
    {
        self.raw.verify(public_key)
    }

    /// The validator that sent the message.
    pub fn validator(&self) -> (validator: u32)
        ensures
            validator == self@.validator,
    {
        proof {
            use_type_invariant(self);
        }
        u32::read(self.raw.body(), 0, 4)
    }

    /// The height that the message is for.
    pub fn height(&self) -> (height: u64)
        ensures
            height == self@.height,
    {
        proof {
            use_type_invariant(self);
        }
        u64::read(self.raw.body(), 4, 12)
    }

    /// The round that the message is for.
    pub fn round(&self) -> (round: u32)
        ensures
            round == self@.round,
    {
        proof {
            use_type_invariant(self);
        }
        u32::read(self.raw.body(), 12, 16)
    }

    /// The digest of the committed block.
    pub fn block_hash(&self) -> (digest: crate::crypto::Hash)
        ensures
            digest@ == self@.block_hash,
    {
        proof {
            use_type_invariant(self);
        }
        crate::crypto::Hash::read(self.raw.body(), 16, 48)
    }
}

} // verus!

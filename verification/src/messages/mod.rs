//! Wire messages: the envelope, the field codec, the concrete message types,
//! and the sum types that classify an envelope by its tag.

pub mod error;
pub mod fields;
pub mod protocol;
pub mod raw;
pub mod segment;
pub mod writer;

pub use self::error::Error;
pub use self::fields::Field;
pub use self::protocol::{
    Commit, Connect, Precommit, Prevote, Propose, TxIssue, TxTransfer, TxVoteConfig,
    TxVoteValidator, BASIC_CLASS, CONSENSUS_CLASS, TX_CLASS,
};
pub use self::raw::{RawMessage, HEADER_SIZE, MAX_MESSAGE_SIZE, MIN_MESSAGE_SIZE};
pub use self::segment::Segment;
pub use self::writer::MessageWriter;

use vstd::prelude::*;
use crate::crypto::{ed25519_accepts, sha256_digest, PublicKey, SIGNATURE_SIZE};
use self::raw::{
    body_of, class_of, declared_length, envelope_error, signature_of, signed_part_of, type_of,
};

verus! {

/// Any message that this node understands.
#[derive(Debug, PartialEq, Eq)]
pub enum Any {
    Basic(BasicMessage),
    Consensus(ConsensusMessage),
    Tx(TxMessage),
}

/// The messages by which nodes find each other.
#[derive(Debug, PartialEq, Eq)]
pub enum BasicMessage {
    Connect(Connect),
}

/// The messages of a consensus round.
#[derive(Debug, PartialEq, Eq)]
pub enum ConsensusMessage {
    Propose(Propose),
    Prevote(Prevote),
    Precommit(Precommit),
    Commit(Commit),
}

/// The transactions.
#[derive(Debug, PartialEq, Eq)]
pub enum TxMessage {
    Issue(TxIssue),
    Transfer(TxTransfer),
    VoteValidator(TxVoteValidator),
    VoteConfig(TxVoteConfig),
}

impl BasicMessage {
    /// The envelope's bytes.
    pub open spec fn bytes(&self) -> Seq<u8> {
        match self {
            BasicMessage::Connect(message) => message.bytes(),
        }
    }

    /// The class and type of the variant.
    pub open spec fn tag(&self) -> (u8, u8) {
        match self {
            BasicMessage::Connect(_) => (Connect::MESSAGE_CLASS, Connect::MESSAGE_TYPE),
        }
    }

    /// The envelope. Its header carries the tag of the variant.
    pub fn raw(&self) -> (raw: &RawMessage)
        ensures
            raw@ == self.bytes(),
            self.tag() == (class_of(raw@), type_of(raw@)),
    {
        match *self {
            BasicMessage::Connect(ref msg) => msg.raw(),
        }
    }
}

impl TxMessage {
    /// The envelope's bytes.
    pub open spec fn bytes(&self) -> Seq<u8> {
        match self {
            TxMessage::Issue(message) => message.bytes(),
            TxMessage::Transfer(message) => message.bytes(),
            TxMessage::VoteValidator(message) => message.bytes(),
            TxMessage::VoteConfig(message) => message.bytes(),
        }
    }

    /// The class and type of the variant.
    pub open spec fn tag(&self) -> (u8, u8) {
        match self {
            TxMessage::Issue(_) => (TxIssue::MESSAGE_CLASS, TxIssue::MESSAGE_TYPE),
            TxMessage::Transfer(_) => (TxTransfer::MESSAGE_CLASS, TxTransfer::MESSAGE_TYPE),
            TxMessage::VoteValidator(_) => (
                TxVoteValidator::MESSAGE_CLASS,
                TxVoteValidator::MESSAGE_TYPE,
            ),
            TxMessage::VoteConfig(_) => (TxVoteConfig::MESSAGE_CLASS, TxVoteConfig::MESSAGE_TYPE),
        }
    }

    /// The digest of the whole envelope: the name by which the transaction
    /// is known.
    pub fn hash(&self) -> (digest: crate::crypto::Hash)
        ensures
            digest@ == sha256_digest(self.bytes()),
    {
        match *self {
            TxMessage::Issue(ref msg) => msg.hash(),
            TxMessage::Transfer(ref msg) => msg.hash(),
            TxMessage::VoteValidator(ref msg) => msg.hash(),
            TxMessage::VoteConfig(ref msg) => msg.hash(),
        }
    }

    /// The envelope. Its header carries the tag of the variant.
    pub fn raw(&self) -> (raw: &RawMessage)
        ensures
            raw@ == self.bytes(),
            self.tag() == (class_of(raw@), type_of(raw@)),
    {
        match *self {
            TxMessage::Issue(ref msg) => msg.raw(),
            TxMessage::Transfer(ref msg) => msg.raw(),
            TxMessage::VoteValidator(ref msg) => msg.raw(),
            TxMessage::VoteConfig(ref msg) => msg.raw(),
        }
    }

    /// Whether the signature is accepted for header and body under
    /// `public_key`.
    pub fn verify(&self, public_key: &PublicKey) -> (accepted: bool)
        ensures
            accepted == ed25519_accepts(
                public_key@,
                signed_part_of(self.bytes()),
                signature_of(self.bytes()),
            ),
    {
        match *self {
            TxMessage::Issue(ref msg) => msg.verify(public_key),
            TxMessage::Transfer(ref msg) => msg.verify(public_key),
            TxMessage::VoteValidator(ref msg) => msg.verify(public_key),
            TxMessage::VoteConfig(ref msg) => msg.verify(public_key),
        }
    }
}

impl ConsensusMessage {
    /// The envelope's bytes.
    pub open spec fn bytes(&self) -> Seq<u8> {
        match self {
            ConsensusMessage::Propose(message) => message.bytes(),
            ConsensusMessage::Prevote(message) => message.bytes(),
            ConsensusMessage::Precommit(message) => message.bytes(),
            ConsensusMessage::Commit(message) => message.bytes(),
        }
    }

    /// The class and type of the variant.
    pub open spec fn tag(&self) -> (u8, u8) {
        match self {
            ConsensusMessage::Propose(_) => (Propose::MESSAGE_CLASS, Propose::MESSAGE_TYPE),
            ConsensusMessage::Prevote(_) => (Prevote::MESSAGE_CLASS, Prevote::MESSAGE_TYPE),
            ConsensusMessage::Precommit(_) => (Precommit::MESSAGE_CLASS, Precommit::MESSAGE_TYPE),
            ConsensusMessage::Commit(_) => (Commit::MESSAGE_CLASS, Commit::MESSAGE_TYPE),
        }
    }

    /// The validator that the message names as its sender.
    pub open spec fn sender(&self) -> u32 {
        match self {
            ConsensusMessage::Propose(message) => message@.validator,
            ConsensusMessage::Prevote(message) => message@.validator,
            ConsensusMessage::Precommit(message) => message@.validator,
            ConsensusMessage::Commit(message) => message@.validator,
        }
    }

    /// The height that the message names.
    pub open spec fn at_height(&self) -> u64 {
        match self {
            ConsensusMessage::Propose(message) => message@.height,
            ConsensusMessage::Prevote(message) => message@.height,
            ConsensusMessage::Precommit(message) => message@.height,
            ConsensusMessage::Commit(message) => message@.height,
        }
    }

    /// The round that the message names.
    pub open spec fn at_round(&self) -> u32 {
        match self {
            ConsensusMessage::Propose(message) => message@.round,
            ConsensusMessage::Prevote(message) => message@.round,
            ConsensusMessage::Precommit(message) => message@.round,
            ConsensusMessage::Commit(message) => message@.round,
        }
    }

    /// The validator that sent the message.
    pub fn validator(&self) -> (validator: u32)
        ensures
            validator == self.sender(),
    {
        match *self {
            ConsensusMessage::Propose(ref msg) => msg.validator(),
            ConsensusMessage::Prevote(ref msg) => msg.validator(),
            ConsensusMessage::Precommit(ref msg) => msg.validator(),
            ConsensusMessage::Commit(ref msg) => msg.validator(),
        }
    }

    /// The height that the message is for.
    pub fn height(&self) -> (height: u64)
        ensures
            height == self.at_height(),
    {
        match *self {
            ConsensusMessage::Propose(ref msg) => msg.height(),
            ConsensusMessage::Prevote(ref msg) => msg.height(),
            ConsensusMessage::Precommit(ref msg) => msg.height(),
            ConsensusMessage::Commit(ref msg) => msg.height(),
        }
    }

    /// The round that the message is for.
    pub fn round(&self) -> (round: u32)
        ensures
            round == self.at_round(),
    {
        match *self {
            ConsensusMessage::Propose(ref msg) => msg.round(),
            ConsensusMessage::Prevote(ref msg) => msg.round(),
            ConsensusMessage::Precommit(ref msg) => msg.round(),
            ConsensusMessage::Commit(ref msg) => msg.round(),
        }
    }

    /// The envelope. Its header carries the tag of the variant.
    pub fn raw(&self) -> (raw: &RawMessage)
        ensures
            raw@ == self.bytes(),
            self.tag() == (class_of(raw@), type_of(raw@)),
    {
        match *self {
            ConsensusMessage::Propose(ref msg) => msg.raw(),
            ConsensusMessage::Prevote(ref msg) => msg.raw(),
            ConsensusMessage::Precommit(ref msg) => msg.raw(),
            ConsensusMessage::Commit(ref msg) => msg.raw(),
        }
    }

    /// Whether the signature is accepted for header and body under
    /// `public_key`.
    pub fn verify(&self, public_key: &PublicKey) -> (accepted: bool)
        ensures
            accepted == ed25519_accepts(
                public_key@,
                signed_part_of(self.bytes()),
                signature_of(self.bytes()),
            ),
    {
        match *self {
            ConsensusMessage::Propose(ref msg) => msg.verify(public_key),
            ConsensusMessage::Prevote(ref msg) => msg.verify(public_key),
            ConsensusMessage::Precommit(ref msg) => msg.verify(public_key),
            ConsensusMessage::Commit(ref msg) => msg.verify(public_key),
        }
    }

    /// The digest of the whole envelope.
    pub fn hash(&self) -> (digest: crate::crypto::Hash)
        ensures
            digest@ == sha256_digest(self.bytes()),
    {
        match *self {
            ConsensusMessage::Propose(ref msg) => msg.hash(),
            ConsensusMessage::Prevote(ref msg) => msg.hash(),
            ConsensusMessage::Precommit(ref msg) => msg.hash(),
            ConsensusMessage::Commit(ref msg) => msg.hash(),
        }
    }
}

impl Any {
    /// The envelope's bytes.
    pub open spec fn bytes(&self) -> Seq<u8> {
        match self {
            Any::Basic(message) => message.bytes(),
            Any::Consensus(message) => message.bytes(),
            Any::Tx(message) => message.bytes(),
        }
    }

    /// The class and type of the variant.
    pub open spec fn tag(&self) -> (u8, u8) {
        match self {
            Any::Basic(message) => message.tag(),
            Any::Consensus(message) => message.tag(),
            Any::Tx(message) => message.tag(),
        }
    }

    /// Why an envelope is none of the messages, if it is none: its tag is
    /// the tag of no type, or its body has not the layout of the type that
    /// the tag names.
    pub open spec fn decode_error(bytes: Seq<u8>) -> Option<Error> {
        let tag = (class_of(bytes), type_of(bytes));
        if tag == (Connect::MESSAGE_CLASS, Connect::MESSAGE_TYPE) {
            Connect::decode_error(bytes)
        } else if tag == (Propose::MESSAGE_CLASS, Propose::MESSAGE_TYPE) {
            Propose::decode_error(bytes)
        } else if tag == (Prevote::MESSAGE_CLASS, Prevote::MESSAGE_TYPE) {
            Prevote::decode_error(bytes)
        } else if tag == (Precommit::MESSAGE_CLASS, Precommit::MESSAGE_TYPE) {
            Precommit::decode_error(bytes)
        } else if tag == (Commit::MESSAGE_CLASS, Commit::MESSAGE_TYPE) {
            Commit::decode_error(bytes)
        } else if tag == (TxIssue::MESSAGE_CLASS, TxIssue::MESSAGE_TYPE) {
            TxIssue::decode_error(bytes)
        } else if tag == (TxTransfer::MESSAGE_CLASS, TxTransfer::MESSAGE_TYPE) {
            TxTransfer::decode_error(bytes)
        } else if tag == (TxVoteValidator::MESSAGE_CLASS, TxVoteValidator::MESSAGE_TYPE) {
            TxVoteValidator::decode_error(bytes)
        } else if tag == (TxVoteConfig::MESSAGE_CLASS, TxVoteConfig::MESSAGE_TYPE) {
            TxVoteConfig::decode_error(bytes)
        } else {
            Some(Error::UnknownMessageType)
        }
    }

    /// Why a buffer is none of the messages, if it is none: it has not the
    /// shape of an envelope, or the envelope is none of the messages.
    pub open spec fn buffer_error(bytes: Seq<u8>) -> Option<Error> {
        match envelope_error(bytes) {
            Some(error) => Some(error),
            None => Any::decode_error(bytes),
        }
    }

    /// The envelope. Its header carries the tag of the variant.
    pub fn raw(&self) -> (raw: &RawMessage)
        ensures
            raw@ == self.bytes(),
            self.tag() == (class_of(raw@), type_of(raw@)),
    {
        match *self {
            Any::Basic(ref msg) => msg.raw(),
            Any::Consensus(ref msg) => msg.raw(),
            Any::Tx(ref msg) => msg.raw(),
        }
    }

    /// Classifies an envelope by its tag and takes it as the message that
    /// the tag names.
    pub fn from_raw(raw: RawMessage) -> (result: Result<Any, Error>)
        ensures
            match result {
                Ok(message) => {
                    &&& Any::decode_error(raw@) is None
                    &&& message.bytes() == raw@
                    &&& message.tag() == (class_of(raw@), type_of(raw@))
                },
                Err(error) => Any::decode_error(raw@) == Some(error),
            },
    {
        let class = raw.message_class();
        let message_type = raw.message_type();
        if class == BASIC_CLASS {
            if message_type == Connect::MESSAGE_TYPE {
                return match Connect::from_raw(raw) {
                    Ok(message) => Ok(Any::Basic(BasicMessage::Connect(message))),
                    Err(error) => Err(error),
                };
            }
        } else if class == CONSENSUS_CLASS {
            if message_type == Propose::MESSAGE_TYPE {
                return match Propose::from_raw(raw) {
                    Ok(message) => Ok(Any::Consensus(ConsensusMessage::Propose(message))),
                    Err(error) => Err(error),
                };
            } else if message_type == Prevote::MESSAGE_TYPE {
                return match Prevote::from_raw(raw) {
                    Ok(message) => Ok(Any::Consensus(ConsensusMessage::Prevote(message))),
                    Err(error) => Err(error),
                };
            } else if message_type == Precommit::MESSAGE_TYPE {
                return match Precommit::from_raw(raw) {
                    Ok(message) => Ok(Any::Consensus(ConsensusMessage::Precommit(message))),
                    Err(error) => Err(error),
                };
            } else if message_type == Commit::MESSAGE_TYPE {
                return match Commit::from_raw(raw) {
                    Ok(message) => Ok(Any::Consensus(ConsensusMessage::Commit(message))),
                    Err(error) => Err(error),
                };
            }
        } else if class == TX_CLASS {
            if message_type == TxIssue::MESSAGE_TYPE {
                return match TxIssue::from_raw(raw) {
                    Ok(message) => Ok(Any::Tx(TxMessage::Issue(message))),
                    Err(error) => Err(error),
                };
            } else if message_type == TxTransfer::MESSAGE_TYPE {
                return match TxTransfer::from_raw(raw) {
                    Ok(message) => Ok(Any::Tx(TxMessage::Transfer(message))),
                    Err(error) => Err(error),
                };
            } else if message_type == TxVoteValidator::MESSAGE_TYPE {
                return match TxVoteValidator::from_raw(raw) {
                    Ok(message) => Ok(Any::Tx(TxMessage::VoteValidator(message))),
                    Err(error) => Err(error),
                };
            } else if message_type == TxVoteConfig::MESSAGE_TYPE {
                return match TxVoteConfig::from_raw(raw) {
                    Ok(message) => Ok(Any::Tx(TxMessage::VoteConfig(message))),
                    Err(error) => Err(error),
                };
            }
        }
        Err(Error::UnknownMessageType)
    }

    /// Takes a buffer as it came from a peer: first as an envelope, then as
    /// the message that the envelope's tag names.
    pub fn from_bytes(bytes: Vec<u8>) -> (result: Result<Any, Error>)
        ensures
            match result {
                Ok(message) => {
                    &&& Any::buffer_error(bytes@) is None
                    &&& message.bytes() == bytes@
                    &&& message.tag() == (class_of(bytes@), type_of(bytes@))
                },
                Err(error) => Any::buffer_error(bytes@) == Some(error),
            },
            bytes@.len() < MIN_MESSAGE_SIZE ==> result matches Err(Error::UnexpectedlyShort),
            bytes@.len() >= MIN_MESSAGE_SIZE && declared_length(bytes@) != bytes@.len()
                - MIN_MESSAGE_SIZE ==> result matches Err(Error::IncorrectLength),
    {
        match RawMessage::from_bytes(bytes) {
            Ok(raw) => Any::from_raw(raw),
            Err(error) => Err(error),
        }
    }

    /// Whether a buffer is taken as a message depends on header and body
    /// alone: two buffers that differ only in the 64 bytes of the signature
    /// are both taken or both refused, and refused for the same reason.
    pub proof fn lemma_decoding_ignores_signature(first: Seq<u8>, second: Seq<u8>)
        requires
            first.len() == second.len(),
            first.len() >= SIGNATURE_SIZE,
            signed_part_of(first) == signed_part_of(second),
        ensures
            Any::buffer_error(first) == Any::buffer_error(second),
    {
        let part = signed_part_of(first);
        assert forall|index: int| 0 <= index < first.len() - SIGNATURE_SIZE implies first[index]
            == second[index] by {
            assert(first[index] == part[index]);
            assert(second[index] == signed_part_of(second)[index]);
        }
        if first.len() >= MIN_MESSAGE_SIZE {
            assert(first.subrange(3, 7) =~= second.subrange(3, 7));
            assert(body_of(first) =~= body_of(second));
        }
    }
}

} // verus!

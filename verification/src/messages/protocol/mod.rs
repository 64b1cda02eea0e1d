//! The concrete message types. Each is a typed view of one envelope: its
//! tag, the layout of its body, a constructor that signs, and accessors.

pub mod basic;
pub mod consensus;
pub mod tx;

pub use self::basic::{Connect, BASIC_CLASS};
pub use self::consensus::{Commit, Precommit, Prevote, Propose, CONSENSUS_CLASS};
pub use self::tx::{TxIssue, TxTransfer, TxVoteConfig, TxVoteValidator, TX_CLASS};

//! Failures of decoding.

use vstd::prelude::*;

verus! {

/// Why a buffer is not a message, or not the message that was asked for.
#[derive(Clone, Copy, Debug, PartialEq, Eq, Structural)]
pub enum Error {
    /// The length that the header declares is not the length of the body.
    IncorrectLength,
    /// The buffer is longer than the largest message.
    TooLong,
    /// The header's tag is not the tag of the message type asked for.
    IncorrectMessageType,
    /// The header's tag is the tag of no message type.
    UnknownMessageType,
    /// A segment pointer reaches into the fixed fields or past the end of the
    /// body. `offset` and `size` are the two numbers of the pointer: where
    /// the segment starts and how many items it holds.
    IncorrectSegmentReference { offset: u32, size: u32 },
    /// The buffer is shorter than the smallest message, or the body shorter
    /// than the fixed fields of its type.
    UnexpectedlyShort,
}

} // verus!

//! Error taxonomy of the decoder.
//!
//! Transport failures end the frame loop; header and payload failures
//! cost at most the current frame, after which the loop resumes
//! scanning for the next header.

use vstd::prelude::*;

verus! {

/// A malformed 24-byte frame header.
#[derive(Clone, Copy, Debug, PartialEq, Eq, Structural)]
pub enum HeaderError {
    /// The 16-bit type code matches no known data type.
    UnknownType,
    /// Fewer than 24 header bytes were supplied.
    Truncated,
}

/// A payload whose embedded count fields disagree with its length.
#[derive(Clone, Copy, Debug, PartialEq, Eq, Structural)]
pub enum PayloadError {
    /// A record, or the fixed prefix, extends past the end of the buffer.
    Truncated,
    /// The buffer ends on a record boundary before the declared number of
    /// records has been read.
    CountMismatch,
}

/// A failure of the byte stream itself; fatal to the frame loop.
#[derive(Clone, Copy, Debug, PartialEq, Eq, Structural)]
pub enum TransportError {
    /// The stream reported end of input.
    Closed,
    /// The stream reported a read failure.
    Io,
}

} // verus!

//! The ways in which decoding a capture stream can fail.

use vstd::prelude::*;

verus! {

/// A terminal failure of a stream: none of them is retried, and the reader
/// makes no attempt to find the next good block.
#[derive(Clone, Copy, Debug, PartialEq, Eq, Structural)]
pub enum ReadError {
    /// A malformed header, an invalid length or version byte, or a size that
    /// does not fit the machine.
    Format,
    /// The stream ended in the middle of a length prefix or of a block.
    TruncatedInput,
    /// A decoded block is larger than the buffer that the file announced.
    Capacity,
    /// A compressed payload did not expand to the size it declared.
    Decompression,
}

} // verus!

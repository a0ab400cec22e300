//! The pickled payload: one control byte, an optional little-endian "diff
//! length", and the data, either stored as it is or as one LZ4 block.
//!
//! Bits 6 and 7 of the control byte say how many bytes the diff length takes
//! (0, 1, 2 or 4); bit 0 is the version flag and must be clear. A diff of zero
//! means that the rest is the decoded payload itself. Any other diff is the
//! number of bytes that decompression adds to the length of the rest.

use crate::endian::{le_u16, le_u32, read_u16, read_u32};
use crate::error::ReadError;
use lz4_flex::block::DecompressError;
use vstd::prelude::*;
use vstd::slice::slice_to_vec;

verus! {

/// The longest compressed payload that is handed to the decompressor. The
/// LZ4 decoder sums length bytes in 32 bits; below this bound no sum of them
/// can leave that range, nor that of a 32-bit `usize` when added to a
/// position in the output.
pub const MAX_COMPRESSED_LEN: usize = 0x80_0000;

/// The error type of `lz4_flex::block::decompress`, carried through opaquely.
#[verifier::external_type_specification]
#[verifier::external_body]
pub struct ExDecompressError(DecompressError);

/// What `lz4_flex::block::decompress` makes of `input` when asked for room
/// for `min_size` bytes: the decompressed bytes, or `None` where it reports
/// an error.
pub uninterp spec fn lz4_block_output(input: Seq<u8>, min_size: int) -> Option<Seq<u8>>;

/// `lz4_flex::block::decompress`: expands one LZ4 block into a fresh vector
/// of at most `min_size` bytes. The result is a function of the two
/// arguments, named by [`lz4_block_output`]; nothing is proved of it. With
/// the bounds-checked decoder the call reports output that does not fit as
/// an error. The preconditions keep its length arithmetic and its
/// allocation request in range.
#[verifier::external_body]
fn lz4_decompress(input: &[u8], min_size: usize) -> (outcome: Result<Vec<u8>, DecompressError>)
    requires
        input@.len() <= MAX_COMPRESSED_LEN,
        min_size <= isize::MAX,
    ensures
        expansion(outcome) == lz4_block_output(input@, min_size as int),
{
    lz4_flex::block::decompress(input, min_size)
}

/// The bytes that a decompression produced, if it produced any.
pub open spec fn expansion(outcome: Result<Vec<u8>, DecompressError>) -> Option<Seq<u8>> {
    match outcome {
        Ok(bytes) => Some(bytes@),
        Err(_) => None,
    }
}

/// A decoding result with the bytes taken as a sequence.
pub open spec fn decoded(result: Result<Vec<u8>, ReadError>) -> Result<Seq<u8>, ReadError> {
    match result {
        Ok(bytes) => Ok(bytes@),
        Err(e) => Err(e),
    }
}

/// The number of bytes that the diff length takes, from bits 6 and 7 of the
/// control byte: 0, 1, 2 or 4.
pub open spec fn diff_width(control: u8) -> int {
    let selector = control as int / 64;
    if selector == 3 {
        4
    } else {
        selector
    }
}

/// The diff length of a pickled payload that holds all of its header: the
/// bytes after the control byte as an unsigned little-endian number.
pub open spec fn diff_value(src: Seq<u8>) -> int {
    let width = diff_width(src[0]);
    if width == 0 {
        0
    } else if width == 1 {
        src[1] as int
    } else if width == 2 {
        le_u16(src.skip(1))
    } else {
        le_u32(src.skip(1))
    }
}

/// Accepts decompressed bytes only if there are exactly `expected` of them.
pub open spec fn exact_output(expected: int, output: Option<Seq<u8>>) -> Result<
    Seq<u8>,
    ReadError,
> {
    match output {
        Some(bytes) => if bytes.len() == expected {
            Ok(bytes)
        } else {
            Err(ReadError::Decompression)
        },
        None => Err(ReadError::Decompression),
    }
}

/// What a pickled payload decodes to.
///
/// Empty input decodes to nothing. A set version bit or a header cut short
/// is a format error. A compressed payload must be within
/// [`MAX_COMPRESSED_LEN`], must declare a size that a vector can hold, and
/// must expand to exactly that size: its own length plus the diff.
pub open spec fn unpickled(src: Seq<u8>) -> Result<Seq<u8>, ReadError> {
    if src.len() == 0 {
        Ok(Seq::empty())
    } else if src[0] as int % 2 != 0 {
        Err(ReadError::Format)
    } else if src.len() < 1 + diff_width(src[0]) {
        Err(ReadError::Format)
    } else {
        let payload = src.skip(1 + diff_width(src[0]));
        let diff = diff_value(src);
        if diff == 0 {
            Ok(payload)
        } else if payload.len() > MAX_COMPRESSED_LEN {
            Err(ReadError::Decompression)
        } else if payload.len() + diff > isize::MAX {
            Err(ReadError::Format)
        } else {
            exact_output(payload.len() + diff, lz4_block_output(payload, payload.len() + diff))
        }
    }
}

/// Judges what the decompressor returned for a payload that declared
/// `expected` bytes: the bytes if there are exactly that many, otherwise a
/// decompression error.
pub fn accept_output(expected: usize, outcome: Result<Vec<u8>, DecompressError>) -> (result:
    Result<Vec<u8>, ReadError>)
    ensures
        decoded(result) == exact_output(expected as int, expansion(outcome)),
{
    match outcome {
        Ok(bytes) => {
            if bytes.len() == expected {
                Ok(bytes)
            } else {
                Err(ReadError::Decompression)
            }
        },
        Err(_) => Err(ReadError::Decompression),
    }
}

/// Decodes one pickled payload into a fresh vector.
pub fn unpickle(src: &[u8]) -> (result: Result<Vec<u8>, ReadError>)
    ensures
        decoded(result) == unpickled(src@),
{
    if src.len() == 0 {
        return Ok(Vec::new());
    }
    let control: u8 = src[0];
    assert(control & 1 == control % 2 && control >> 6 == control / 64) by (bit_vector);
    if control & 1 != 0 {
        return Err(ReadError::Format);
    }
    let selector: u8 = control >> 6;
    let width: usize = if selector == 3 {
        4
    } else {
        selector as usize
    };
    let data_start: usize = 1 + width;
    if src.len() < data_start {
        return Err(ReadError::Format);
    }
    let header = &src[1..data_start];
    let diff: usize = if width == 0 {
        0
    } else if width == 1 {
        header[0] as usize
    } else if width == 2 {
        read_u16(header) as usize
    } else {
        read_u32(header) as usize
    };
    let payload = &src[data_start..src.len()];
    if diff == 0 {
        return Ok(slice_to_vec(payload));
    }
    if payload.len() > MAX_COMPRESSED_LEN {
        return Err(ReadError::Decompression);
    }
    if diff > isize::MAX as usize - payload.len() {
        return Err(ReadError::Format);
    }
    let expected: usize = payload.len() + diff;
    accept_output(expected, lz4_decompress(payload, expected))
}

/// A payload written behind a header whose diff length is zero, in any of
/// the four widths, decodes to itself.
pub proof fn lemma_stored_round_trip(control: u8, diff: Seq<u8>, payload: Seq<u8>)
    requires
        control % 2 == 0,
        diff.len() == diff_width(control),
        forall|i: int| 0 <= i < diff.len() ==> diff[i] == 0,
    ensures
        unpickled(seq![control] + diff + payload) == Ok::<Seq<u8>, ReadError>(payload),
{
    let src = seq![control] + diff + payload;
    assert(src.skip(1 + diff.len() as int) =~= payload);
    assert(src.skip(1).take(diff.len() as int) =~= diff);
}

} // verus!

//! Little-endian integers at the front of a byte sequence.
//!
//! The spec functions give the value of the leading bytes as a mathematical
//! integer; the executable readers hand the work to `byteorder`.

use byteorder::{ByteOrder, LittleEndian};
use vstd::prelude::*;

verus! {

/// The unsigned value of the first two bytes of `s`, least significant first.
pub open spec fn le_u16(s: Seq<u8>) -> int {
    s[0] as int + 0x100 * (s[1] as int)
}

/// The unsigned value of the first four bytes of `s`, least significant first.
pub open spec fn le_u32(s: Seq<u8>) -> int {
    le_u16(s) + 0x1_0000 * le_u16(s.skip(2))
}

/// The unsigned value of the first eight bytes of `s`, least significant first.
pub open spec fn le_u64(s: Seq<u8>) -> int {
    le_u32(s) + 0x1_0000_0000 * le_u32(s.skip(4))
}

/// Reads `value`, an unsigned number below `modulus`, as two's complement:
/// the upper half of the range stands for the negative numbers.
pub open spec fn twos_complement(value: int, modulus: int) -> int {
    if 2 * value >= modulus {
        value - modulus
    } else {
        value
    }
}

/// The signed value of the first two bytes of `s`.
pub open spec fn le_i16(s: Seq<u8>) -> int {
    twos_complement(le_u16(s), 0x1_0000)
}

/// The signed value of the first four bytes of `s`.
pub open spec fn le_i32(s: Seq<u8>) -> int {
    twos_complement(le_u32(s), 0x1_0000_0000)
}

/// The signed value of the first eight bytes of `s`.
pub open spec fn le_i64(s: Seq<u8>) -> int {
    twos_complement(le_u64(s), 0x1_0000_0000_0000_0000)
}

/// `byteorder::LittleEndian::read_u16`: the first two bytes of `buf` as an
/// unsigned little-endian number. The call panics on a shorter slice, which
/// the precondition rules out. Not proved: taken from the crate's source.
#[verifier::external_body]
pub(crate) fn read_u16(buf: &[u8]) -> (value: u16)
    requires
        buf@.len() >= 2,
    ensures
        value as int == le_u16(buf@),
{
    LittleEndian::read_u16(buf)
}

/// `byteorder::LittleEndian::read_i16`: the first two bytes of `buf` as a
/// two's complement little-endian number. The call panics on a shorter
/// slice, which the precondition rules out. Not proved.
#[verifier::external_body]
pub(crate) fn read_i16(buf: &[u8]) -> (value: i16)
    requires
        buf@.len() >= 2,
    ensures
        value as int == le_i16(buf@),
{
    LittleEndian::read_i16(buf)
}

/// `byteorder::LittleEndian::read_u32`: the first four bytes of `buf` as an
/// unsigned little-endian number. The call panics on a shorter slice, which
/// the precondition rules out. Not proved.
#[verifier::external_body]
pub(crate) fn read_u32(buf: &[u8]) -> (value: u32)
    requires
        buf@.len() >= 4,
    ensures
        value as int == le_u32(buf@),
{
    LittleEndian::read_u32(buf)
}

/// `byteorder::LittleEndian::read_i32`: the first four bytes of `buf` as a
/// two's complement little-endian number. The call panics on a shorter
/// slice, which the precondition rules out. Not proved.
#[verifier::external_body]
pub(crate) fn read_i32(buf: &[u8]) -> (value: i32)
    requires
        buf@.len() >= 4,
    ensures
        value as int == le_i32(buf@),
{
    LittleEndian::read_i32(buf)
}

/// `byteorder::LittleEndian::read_i64`: the first eight bytes of `buf` as a
/// two's complement little-endian number. The call panics on a shorter
/// slice, which the precondition rules out. Not proved.
#[verifier::external_body]
pub(crate) fn read_i64(buf: &[u8]) -> (value: i64)
    requires
        buf@.len() >= 8,
    ensures
        value as int == le_i64(buf@),
{
    LittleEndian::read_i64(buf)
}

} // verus!

//! Fixed-width little-endian integers, as spec functions over bytes and as
//! executable readers.

use byteorder::{ByteOrder, LittleEndian};
use vstd::prelude::*;

verus! {

/// The unsigned 16-bit value whose little-endian bytes start at `at`.
pub open spec fn le_u16(s: Seq<u8>, at: int) -> int {
    s[at] as int + 256 * (s[at + 1] as int)
}

/// The unsigned 32-bit value whose little-endian bytes start at `at`.
pub open spec fn le_u32(s: Seq<u8>, at: int) -> int {
    s[at] as int + 256 * (s[at + 1] as int) + 65536 * (s[at + 2] as int) + 16777216 * (s[at
        + 3] as int)
}

/// The signed 32-bit value whose little-endian two's-complement bytes start
/// at `at`.
pub open spec fn le_i32(s: Seq<u8>, at: int) -> int {
    if le_u32(s, at) >= 2147483648 {
        le_u32(s, at) - 4294967296
    } else {
        le_u32(s, at)
    }
}

/// Calls `byteorder::LittleEndian::read_u16`, which builds a `u16` from the
/// first two bytes of the buffer, lowest byte first, and panics on a buffer
/// shorter than two bytes.
#[verifier::external_body]
pub(crate) fn read_u16_le(buf: &[u8]) -> (r: u16)
    requires
        buf@.len() >= 2,
    ensures
        r as int == le_u16(buf@, 0),
{
    LittleEndian::read_u16(buf)
}

/// Calls `byteorder::LittleEndian::read_u32`, which builds a `u32` from the
/// first four bytes of the buffer, lowest byte first, and panics on a buffer
/// shorter than four bytes.
#[verifier::external_body]
pub(crate) fn read_u32_le(buf: &[u8]) -> (r: u32)
    requires
        buf@.len() >= 4,
    ensures
        r as int == le_u32(buf@, 0),
{
    LittleEndian::read_u32(buf)
}

/// Calls `byteorder::LittleEndian::read_i32`, which reads the first four
/// bytes of the buffer as a `u32`, lowest byte first, and reinterprets it as
/// two's complement; it panics on a buffer shorter than four bytes.
#[verifier::external_body]
pub(crate) fn read_i32_le(buf: &[u8]) -> (r: i32)
    requires
        buf@.len() >= 4,
    ensures
        r as int == le_i32(buf@, 0),
{
    LittleEndian::read_i32(buf)
}

} // verus!

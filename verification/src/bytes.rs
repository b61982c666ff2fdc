//! Byte-level helpers: big-endian integer assembly and the 7-bit arithmetic
//! that the MIDI encoding builds on.

use vstd::prelude::*;

verus! {

/// The big-endian 16-bit value stored at offset `i` of `b`.
pub open spec fn be16_at(b: Seq<u8>, i: int) -> int {
    b[i] * 256 + b[i + 1]
}

/// The big-endian 32-bit value stored at offset `i` of `b`.
pub open spec fn be32_at(b: Seq<u8>, i: int) -> int {
    b[i] * 0x1000000 + b[i + 1] * 0x10000 + b[i + 2] * 256 + b[i + 3]
}

/// The low seven bits of a byte: the payload bits of both VLQ bytes and
/// message data bytes.
pub open spec fn low7(b: u8) -> u8 {
    (b % 128) as u8
}

/// Reads a big-endian 16-bit integer from two bytes of the buffer.
pub fn u16_from_u8_at(buf: &[u8], offset: usize) -> (r: u16)
    requires
        offset + 2 <= buf@.len(),
    ensures
        r as int == be16_at(buf@, offset as int),
{
    (buf[offset] as u16) * 256 + (buf[offset + 1] as u16)
}

/// Reads a big-endian 32-bit integer from four bytes of the buffer.
pub fn u32_from_u8_at(buf: &[u8], offset: usize) -> (r: u32)
    requires
        offset + 4 <= buf@.len(),
    ensures
        r as int == be32_at(buf@, offset as int),
{
    (buf[offset] as u32) * 0x1000000 + (buf[offset + 1] as u32) * 0x10000 + (buf[offset + 2]
        as u32) * 256 + (buf[offset + 3] as u32)
}

/// True when the byte's most significant bit is set, which in a VLQ marks a
/// continuation byte.
pub fn msb_is_one(number: u8) -> (r: bool)
    ensures
        r <==> number >= 128,
{
    number > 127
}

/// Clears the top bit of a byte, keeping the 7-bit payload.
pub fn lower_seven_bits(number: u8) -> (r: u8)
    ensures
        r == low7(number),
        r < 128,
{
    proof {
        assert(number & 0x7f == number % 128) by (bit_vector);
    }
    number & 0x7f
}

} // verus!

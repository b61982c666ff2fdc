//! The variable-length quantity (VLQ) decoder.
//!
//! A VLQ stores an unsigned integer in one to four bytes, seven payload bits
//! per byte, most significant group first; a set top bit marks a
//! continuation byte and a clear top bit the last byte.

use vstd::prelude::*;

use crate::bytes::low7;
use crate::bytes::lower_seven_bits;
use crate::bytes::msb_is_one;

verus! {

/// How many bytes the VLQ starting at offset `i` of `b` occupies: 1 to 4, or
/// 0 when the quantity is malformed (it runs past the end of the buffer, or a
/// fifth continuation byte would be required).
pub open spec fn vlq_len_at(b: Seq<u8>, i: int) -> int {
    if 0 <= i && i < b.len() && b[i] < 128 {
        1
    } else if 0 <= i && i + 1 < b.len() && b[i] >= 128 && b[i + 1] < 128 {
        2
    } else if 0 <= i && i + 2 < b.len() && b[i] >= 128 && b[i + 1] >= 128 && b[i + 2] < 128 {
        3
    } else if 0 <= i && i + 3 < b.len() && b[i] >= 128 && b[i + 1] >= 128 && b[i + 2] >= 128 && b[i
        + 3] < 128 {
        4
    } else {
        0
    }
}

/// Whether a well-formed VLQ starts at offset `i` of `b`.
pub open spec fn vlq_ok(b: Seq<u8>, i: int) -> bool {
    vlq_len_at(b, i) != 0
}

/// The value of the VLQ starting at offset `i` of `b`: the 7-bit payloads of
/// its bytes concatenated, first byte highest.  Meaningful only when
/// `vlq_ok(b, i)`.
pub open spec fn vlq_value_at(b: Seq<u8>, i: int) -> int {
    let n = vlq_len_at(b, i);
    if n == 1 {
        low7(b[i]) as int
    } else if n == 2 {
        low7(b[i]) * 128 + low7(b[i + 1])
    } else if n == 3 {
        low7(b[i]) * 16384 + low7(b[i + 1]) * 128 + low7(b[i + 2])
    } else if n == 4 {
        low7(b[i]) * 2097152 + low7(b[i + 1]) * 16384 + low7(b[i + 2]) * 128 + low7(b[i + 3])
    } else {
        0
    }
}

/// The shortest VLQ encoding of `v`, for `v < 0x10000000`.
pub open spec fn vlq_encode(v: int) -> Seq<u8> {
    if v < 128 {
        seq![v as u8]
    } else if v < 16384 {
        seq![(128 + v / 128) as u8, (v % 128) as u8]
    } else if v < 2097152 {
        seq![(128 + v / 16384) as u8, (128 + (v / 128) % 128) as u8, (v % 128) as u8]
    } else {
        seq![
            (128 + v / 2097152) as u8,
            (128 + (v / 16384) % 128) as u8,
            (128 + (v / 128) % 128) as u8,
            (v % 128) as u8,
        ]
    }
}

/// Law: decoding an encoding gives the value back, and consumes exactly the
/// bytes the encoding used, for every value expressible in one to four
/// encoded bytes.
pub proof fn lemma_vlq_round_trip(v: u32)
    requires
        v < 0x10000000,
    ensures
        vlq_len_at(vlq_encode(v as int), 0) == vlq_encode(v as int).len(),
        vlq_value_at(vlq_encode(v as int), 0) == v,
{
    let x = v as int;
    if x < 128 {
    } else if x < 16384 {
        assert(v >= 128 && v < 16384 ==> (128 + v / 128) % 128 == v / 128 && (v / 128) * 128 + v
            % 128 == v) by (bit_vector);
    } else if x < 2097152 {
        assert(v >= 16384 && v < 2097152 ==> (128 + v / 16384) % 128 == v / 16384 && (128 + (v
            / 128) % 128) % 128 == (v / 128) % 128 && (v / 16384) * 16384 + ((v / 128) % 128) * 128
            + v % 128 == v) by (bit_vector);
    } else {
        assert(v >= 2097152 && v < 0x10000000 ==> (128 + v / 2097152) % 128 == v / 2097152 && (128
            + (v / 16384) % 128) % 128 == (v / 16384) % 128 && (128 + (v / 128) % 128) % 128 == (v
            / 128) % 128 && (v / 2097152) * 2097152 + ((v / 16384) % 128) * 16384 + ((v / 128)
            % 128) * 128 + v % 128 == v) by (bit_vector);
    }
}

/// Decodes the VLQ delta-time starting at `offset`, returning its value and
/// the offset just past its last byte, or nothing when the quantity is
/// malformed.
pub fn parse_ticks(buf: &[u8], offset: usize) -> (r: Option<(u32, usize)>)
    ensures
        (r is Some) <==> vlq_ok(buf@, offset as int),
        r matches Some((ticks, next)) ==> {
            &&& ticks as int == vlq_value_at(buf@, offset as int)
            &&& next as int == offset + vlq_len_at(buf@, offset as int)
            &&& next <= buf@.len()
        },
{
    if offset >= buf.len() {
        return None;
    }
    let b0 = buf[offset];
    if !msb_is_one(b0) {
        return Some((lower_seven_bits(b0) as u32, offset + 1));
    }
    if offset + 1 >= buf.len() {
        return None;
    }
    let b1 = buf[offset + 1];
    if !msb_is_one(b1) {
        let value = (lower_seven_bits(b0) as u32) * 128 + (lower_seven_bits(b1) as u32);
        return Some((value, offset + 2));
    }
    if offset + 2 >= buf.len() {
        return None;
    }
    let b2 = buf[offset + 2];
    if !msb_is_one(b2) {
        let value = (lower_seven_bits(b0) as u32) * 16384 + (lower_seven_bits(b1) as u32) * 128 + (
        lower_seven_bits(b2) as u32);
        return Some((value, offset + 3));
    }
    if offset + 3 >= buf.len() {
        return None;
    }
    let b3 = buf[offset + 3];
    if !msb_is_one(b3) {
        let value = (lower_seven_bits(b0) as u32) * 2097152 + (lower_seven_bits(b1) as u32) * 16384
            + (lower_seven_bits(b2) as u32) * 128 + (lower_seven_bits(b3) as u32);
        return Some((value, offset + 4));
    }
    None
}

} // verus!

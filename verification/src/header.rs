//! The header decoder: validates and reads the fixed 14-byte file header.

use vstd::prelude::*;

use crate::bytes::be16_at;
use crate::bytes::u16_from_u8_at;
use crate::types::FileFormat;
use crate::types::MidiHeader;

verus! {

/// Whether a format code taken from the header is one of the three valid
/// file organizations.
pub open spec fn format_code_valid(code: int) -> bool {
    1 <= code <= 3
}

/// The file organization a valid format code stands for.
pub open spec fn format_of_code(code: int) -> FileFormat {
    if code == 1 {
        FileFormat::SingleTrack
    } else if code == 2 {
        FileFormat::MultipleSynchronous
    } else {
        FileFormat::MultipleAsynchronous
    }
}

/// Whether `b` opens with a well-formed file header: the ASCII magic "MThd",
/// the fixed big-endian payload length 6, and a valid format code.
pub open spec fn header_ok(b: Seq<u8>) -> bool {
    &&& b.len() >= 14
    &&& b[0] == 0x4d
    &&& b[1] == 0x54
    &&& b[2] == 0x68
    &&& b[3] == 0x64
    &&& b[4] == 0
    &&& b[5] == 0
    &&& b[6] == 0
    &&& b[7] == 6
    &&& format_code_valid(be16_at(b, 8))
}

/// The header value that a well-formed buffer decodes to.
pub open spec fn header_spec(b: Seq<u8>) -> MidiHeader {
    MidiHeader {
        file_format: format_of_code(be16_at(b, 8)),
        num_tracks: be16_at(b, 10) as u16,
        ticks_per_quarter: be16_at(b, 12) as u16,
    }
}

/// Maps a format code to its file organization; any code outside 1..=3 is a
/// decode failure, never a default.
pub fn file_format_from_u16(value: u16) -> (r: Option<FileFormat>)
    ensures
        (r is Some) <==> format_code_valid(value as int),
        r matches Some(f) ==> f == format_of_code(value as int),
{
    match value {
        1 => Some(FileFormat::SingleTrack),
        2 => Some(FileFormat::MultipleSynchronous),
        3 => Some(FileFormat::MultipleAsynchronous),
        _ => None,
    }
}

/// Parses the first 14 bytes of the buffer, which comprise the file header.
/// Fails on a bad magic, a payload length other than 6, an unknown format
/// code, or a buffer too short to hold a header.
pub fn parse_header(buf: &[u8]) -> (r: Option<MidiHeader>)
    ensures
        (r is Some) <==> header_ok(buf@),
        r matches Some(h) ==> h == header_spec(buf@),
{
    if buf.len() < 14 {
        return None;
    }
    // The ASCII bytes of "MThd", then the fixed 32-bit payload length 6.
    let err = buf[0] != 0x4d || buf[1] != 0x54 || buf[2] != 0x68 || buf[3] != 0x64 || buf[4] != 0
        || buf[5] != 0 || buf[6] != 0 || buf[7] != 6;
    if err {
        return None;
    }
    let ff = u16_from_u8_at(buf, 8);
    let num_tracks = u16_from_u8_at(buf, 10);
    let ticks_per_quarter = u16_from_u8_at(buf, 12);
    match file_format_from_u16(ff) {
        Some(x) => Some(MidiHeader { file_format: x, num_tracks, ticks_per_quarter }),
        None => None,
    }
}

} // verus!

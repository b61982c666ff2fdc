//! The message decoder: reads one MIDI message starting at a status byte or,
//! under running status, at its first data byte.

use vstd::prelude::*;

use crate::bytes::low7;
use crate::bytes::lower_seven_bits;
use crate::types::MidiMessage;
use crate::types::message_fields_ok;
use crate::types::status_of;

verus! {

/// Whether a byte cannot open a message as a fresh status byte: any data byte
/// (top bit clear), or one of the reserved-but-unused codes 0xF4, 0xF5, 0xF7
/// and 0xF9.  Such a byte makes the decoder fall back on the carried running
/// status.
pub open spec fn invalid_status_spec(byte: u8) -> bool {
    byte < 0x80 || byte == 0xf4 || byte == 0xf5 || byte == 0xf7 || byte == 0xf9
}

/// The status that governs the message starting at offset `i`: the byte there
/// when it is a valid status byte, else the carried `last` status.
pub open spec fn effective_status(b: Seq<u8>, i: int, last: u8) -> u8 {
    if invalid_status_spec(b[i]) {
        last
    } else {
        b[i]
    }
}

/// Where the message's data bytes start: at `i` under running status, else
/// just past the fresh status byte.
pub open spec fn data_start(b: Seq<u8>, i: int, last: u8) -> int {
    if invalid_status_spec(b[i]) {
        i
    } else {
        i + 1
    }
}

/// The message starting at offset `i` of `b` with running status `last`, and
/// the offset just past its data bytes; or nothing, when the effective status
/// is SystemExclusive (body length undeterminable), an undefined system code,
/// or when a data byte would lie past the end of the buffer.
pub open spec fn msg_decode(b: Seq<u8>, i: int, last: u8) -> Option<(MidiMessage, int)> {
    if i < 0 || i >= b.len() {
        None
    } else {
        let s = effective_status(b, i, last);
        let d = data_start(b, i, last);
        let hi = s / 16;
        let chan = (s % 16) as u8;
        if hi == 8 {
            if d + 1 < b.len() {
                Some(
                    (
                        MidiMessage::NoteOff {
                            channel: chan,
                            key: low7(b[d]),
                            velocity: low7(b[d + 1]),
                        },
                        d + 2,
                    ),
                )
            } else {
                None
            }
        } else if hi == 9 {
            if d + 1 < b.len() {
                Some(
                    (
                        MidiMessage::NoteOn {
                            channel: chan,
                            key: low7(b[d]),
                            velocity: low7(b[d + 1]),
                        },
                        d + 2,
                    ),
                )
            } else {
                None
            }
        } else if hi == 10 {
            if d + 1 < b.len() {
                Some(
                    (
                        MidiMessage::Aftertouch {
                            channel: chan,
                            key: low7(b[d]),
                            velocity: low7(b[d + 1]),
                        },
                        d + 2,
                    ),
                )
            } else {
                None
            }
        } else if hi == 11 {
            if d + 1 < b.len() {
                Some(
                    (
                        MidiMessage::ControlChange {
                            channel: chan,
                            controller: low7(b[d]),
                            value: low7(b[d + 1]),
                        },
                        d + 2,
                    ),
                )
            } else {
                None
            }
        } else if hi == 12 {
            if d < b.len() {
                Some((MidiMessage::ProgramChange { channel: chan, new_program: low7(b[d]) }, d + 1))
            } else {
                None
            }
        } else if hi == 13 {
            if d < b.len() {
                Some((MidiMessage::ChannelPressure { channel: chan, value: low7(b[d]) }, d + 1))
            } else {
                None
            }
        } else if hi == 14 {
            if d + 1 < b.len() {
                Some(
                    (
                        MidiMessage::PitchWheel {
                            channel: chan,
                            lsb: low7(b[d]),
                            msb: low7(b[d + 1]),
                        },
                        d + 2,
                    ),
                )
            } else {
                None
            }
        } else if hi == 15 {
            if chan == 0 {
                None
            } else if chan == 1 {
                if d + 1 < b.len() {
                    Some(
                        (
                            MidiMessage::MidiTimeCode {
                                message_type: low7(b[d]),
                                values: low7(b[d + 1]),
                            },
                            d + 2,
                        ),
                    )
                } else {
                    None
                }
            } else if chan == 2 {
                if d + 1 < b.len() {
                    Some(
                        (
                            MidiMessage::SongPositionPointer {
                                lsb: low7(b[d]),
                                msb: low7(b[d + 1]),
                            },
                            d + 2,
                        ),
                    )
                } else {
                    None
                }
            } else if chan == 3 {
                if d < b.len() {
                    Some((MidiMessage::SongSelect { song: low7(b[d]) }, d + 1))
                } else {
                    None
                }
            } else if chan == 6 {
                Some((MidiMessage::TuneRequest, d))
            } else if chan == 8 {
                Some((MidiMessage::MidiClock, d))
            } else if chan == 10 {
                Some((MidiMessage::MidiStart, d))
            } else if chan == 11 {
                Some((MidiMessage::MidiContinue, d))
            } else if chan == 12 {
                Some((MidiMessage::MidiStop, d))
            } else if chan == 14 {
                Some((MidiMessage::ActiveSense, d))
            } else if chan == 15 {
                Some((MidiMessage::Reset, d))
            } else {
                None
            }
        } else {
            Some((MidiMessage::InvalidStatus, d))
        }
    }
}

/// Law: the inverse mapping stays in lock step with the dispatch.  Whenever
/// the effective status is a real status byte and a message is decoded, that
/// message's governing status byte is exactly the effective status — so the
/// running-status context carried onward is the status that produced the
/// message, fresh or reused.
pub proof fn lemma_status_of_inverts_dispatch(b: Seq<u8>, i: int, last: u8)
    requires
        0 <= i < b.len(),
        effective_status(b, i, last) >= 128,
    ensures
        msg_decode(b, i, last) matches Some((m, k)) ==> status_of(m) == effective_status(
            b,
            i,
            last,
        ),
{
    let s = effective_status(b, i, last);
    assert(s >= 128 ==> ((s / 16 == 8 ==> (0x80u8 | ((s % 16) as u8)) == s) && (s / 16 == 9 ==> (
    0x90u8 | ((s % 16) as u8)) == s) && (s / 16 == 10 ==> (0xa0u8 | ((s % 16) as u8)) == s) && (s
        / 16 == 11 ==> (0xb0u8 | ((s % 16) as u8)) == s) && (s / 16 == 12 ==> (0xc0u8 | ((s % 16)
        as u8)) == s) && (s / 16 == 13 ==> (0xd0u8 | ((s % 16) as u8)) == s) && (s / 16 == 14 ==> (
    0xe0u8 | ((s % 16) as u8)) == s))) by (bit_vector);
    assert(s == 16 * (s / 16) + s % 16);
}

/// Law: running status.  When the carried status is that of a NoteOn message
/// and the decoder is pointed at a bare data byte, the decoded message is
/// again a NoteOn on the same channel, built from the two data bytes at the
/// offset.
pub proof fn lemma_running_status_note_on(
    b: Seq<u8>,
    i: int,
    channel: u8,
    key: u8,
    velocity: u8,
)
    requires
        0 <= i,
        i + 1 < b.len(),
        b[i] < 128,
        channel < 16,
    ensures
        msg_decode(b, i, status_of(MidiMessage::NoteOn { channel, key, velocity })) == Some(
            (
                MidiMessage::NoteOn { channel, key: low7(b[i]), velocity: low7(b[i + 1]) },
                i + 2,
            ),
        ),
{
    let last = status_of(MidiMessage::NoteOn { channel, key, velocity });
    assert(channel < 16 ==> (0x90u8 | channel) / 16 == 9 && ((0x90u8 | channel) % 16) as u8
        == channel) by (bit_vector);
    assert(invalid_status_spec(b[i]));
    assert(effective_status(b, i, last) == last);
    assert(data_start(b, i, last) == i);
}

/// Law: a SystemExclusive status always fails to decode, whatever bytes
/// surround it and whatever status was carried.
pub proof fn lemma_system_exclusive_fails(b: Seq<u8>, i: int, last: u8)
    requires
        0 <= i < b.len(),
        effective_status(b, i, last) == 0xf0,
    ensures
        msg_decode(b, i, last) is None,
{
    assert(0xf0u8 / 16 == 15 && 0xf0u8 % 16 == 0);
}

/// Decides whether a byte must be resolved through running status rather than
/// taken as a fresh status byte.
pub fn is_invalid_status_byte(byte: u8) -> (r: bool)
    ensures
        r == invalid_status_spec(byte),
{
    byte < 0x80 || byte == 0xf4 || byte == 0xf5 || byte == 0xf7 || byte == 0xf9
}

/// The status byte that governs a message: the exact inverse of the decoder's
/// dispatch, used to carry running status to the next event.
pub fn get_status_byte(message: MidiMessage) -> (r: u8)
    ensures
        r == status_of(message),
{
    match message {
        MidiMessage::NoteOff { channel, .. } => 0x80 | channel,
        MidiMessage::NoteOn { channel, .. } => 0x90 | channel,
        MidiMessage::Aftertouch { channel, .. } => 0xa0 | channel,
        MidiMessage::ControlChange { channel, .. } => 0xb0 | channel,
        MidiMessage::ProgramChange { channel, .. } => 0xc0 | channel,
        MidiMessage::ChannelPressure { channel, .. } => 0xd0 | channel,
        MidiMessage::PitchWheel { channel, .. } => 0xe0 | channel,
        MidiMessage::SystemExclusive { .. } => 0xf0,
        MidiMessage::MidiTimeCode { .. } => 0xf1,
        MidiMessage::SongPositionPointer { .. } => 0xf2,
        MidiMessage::SongSelect { .. } => 0xf3,
        MidiMessage::TuneRequest => 0xf6,
        MidiMessage::MidiClock => 0xf8,
        MidiMessage::MidiStart => 0xfa,
        MidiMessage::MidiContinue => 0xfb,
        MidiMessage::MidiStop => 0xfc,
        MidiMessage::ActiveSense => 0xfe,
        MidiMessage::Reset => 0xff,
        MidiMessage::InvalidStatus => 0xfd,
    }
}

/// Decodes one message.  `start_offset` points at a fresh status byte or,
/// under running status, at the first data byte; `last_status` is the status
/// carried from the previous message of the same track.  Returns the message
/// and the offset just past its data bytes.
pub fn parse_message(buf: &[u8], start_offset: usize, last_status: u8) -> (r: Option<
    (MidiMessage, usize),
>)
    ensures
        (r is Some) <==> (msg_decode(buf@, start_offset as int, last_status) is Some),
        r matches Some((m, next)) ==> {
            &&& msg_decode(buf@, start_offset as int, last_status) == Some((m, next as int))
            &&& message_fields_ok(m)
            &&& start_offset <= next <= buf@.len()
        },
{
    if start_offset >= buf.len() {
        return None;
    }
    let status_byte: u8;
    let data_offset: usize;
    if is_invalid_status_byte(buf[start_offset]) {
        status_byte = last_status;
        data_offset = start_offset;
    } else {
        status_byte = buf[start_offset];
        data_offset = start_offset + 1;
    }
    proof {
        assert(status_byte & 0xf0 == 16 * (status_byte / 16) && status_byte & 0x0f == status_byte
            % 16) by (bit_vector);
    }
    let status_pattern = status_byte & 0xf0;
    let channel_number = status_byte & 0x0f;
    if status_pattern == 0x80 {
        if data_offset < buf.len() && data_offset + 1 < buf.len() {
            let k = lower_seven_bits(buf[data_offset]);
            let v = lower_seven_bits(buf[data_offset + 1]);
            Some((MidiMessage::NoteOff { channel: channel_number, key: k, velocity: v }, data_offset
                + 2))
        } else {
            None
        }
    } else if status_pattern == 0x90 {
        if data_offset < buf.len() && data_offset + 1 < buf.len() {
            let k = lower_seven_bits(buf[data_offset]);
            let v = lower_seven_bits(buf[data_offset + 1]);
            Some((MidiMessage::NoteOn { channel: channel_number, key: k, velocity: v }, data_offset
                + 2))
        } else {
            None
        }
    } else if status_pattern == 0xa0 {
        if data_offset < buf.len() && data_offset + 1 < buf.len() {
            let k = lower_seven_bits(buf[data_offset]);
            let v = lower_seven_bits(buf[data_offset + 1]);
            Some((MidiMessage::Aftertouch { channel: channel_number, key: k, velocity: v },
            data_offset + 2))
        } else {
            None
        }
    } else if status_pattern == 0xb0 {
        if data_offset < buf.len() && data_offset + 1 < buf.len() {
            let c = lower_seven_bits(buf[data_offset]);
            let v = lower_seven_bits(buf[data_offset + 1]);
            Some((MidiMessage::ControlChange { channel: channel_number, controller: c, value: v },
            data_offset + 2))
        } else {
            None
        }
    } else if status_pattern == 0xc0 {
        if data_offset < buf.len() {
            let p = lower_seven_bits(buf[data_offset]);
            Some((MidiMessage::ProgramChange { channel: channel_number, new_program: p },
            data_offset + 1))
        } else {
            None
        }
    } else if status_pattern == 0xd0 {
        if data_offset < buf.len() {
            let v = lower_seven_bits(buf[data_offset]);
            Some((MidiMessage::ChannelPressure { channel: channel_number, value: v }, data_offset
                + 1))
        } else {
            None
        }
    } else if status_pattern == 0xe0 {
        if data_offset < buf.len() && data_offset + 1 < buf.len() {
            let l = lower_seven_bits(buf[data_offset]);
            let m = lower_seven_bits(buf[data_offset + 1]);
            Some((MidiMessage::PitchWheel { channel: channel_number, lsb: l, msb: m }, data_offset
                + 2))
        } else {
            None
        }
    } else if status_pattern == 0xf0 {
        if channel_number == 0x00 {
            // A SystemExclusive body's length cannot be determined, so the
            // message cannot be decoded at all.
            None
        } else if channel_number == 0x01 {
            if data_offset < buf.len() && data_offset + 1 < buf.len() {
                let mt = lower_seven_bits(buf[data_offset]);
                let v = lower_seven_bits(buf[data_offset + 1]);
                Some((MidiMessage::MidiTimeCode { message_type: mt, values: v }, data_offset + 2))
            } else {
                None
            }
        } else if channel_number == 0x02 {
            if data_offset < buf.len() && data_offset + 1 < buf.len() {
                let l = lower_seven_bits(buf[data_offset]);
                let m = lower_seven_bits(buf[data_offset + 1]);
                Some((MidiMessage::SongPositionPointer { lsb: l, msb: m }, data_offset + 2))
            } else {
                None
            }
        } else if channel_number == 0x03 {
            if data_offset < buf.len() {
                let s = lower_seven_bits(buf[data_offset]);
                Some((MidiMessage::SongSelect { song: s }, data_offset + 1))
            } else {
                None
            }
        } else if channel_number == 0x06 {
            Some((MidiMessage::TuneRequest, data_offset))
        } else if channel_number == 0x08 {
            Some((MidiMessage::MidiClock, data_offset))
        } else if channel_number == 0x0a {
            Some((MidiMessage::MidiStart, data_offset))
        } else if channel_number == 0x0b {
            Some((MidiMessage::MidiContinue, data_offset))
        } else if channel_number == 0x0c {
            Some((MidiMessage::MidiStop, data_offset))
        } else if channel_number == 0x0e {
            Some((MidiMessage::ActiveSense, data_offset))
        } else if channel_number == 0x0f {
            Some((MidiMessage::Reset, data_offset))
        } else {
            None
        }
    } else {
        Some((MidiMessage::InvalidStatus, data_offset))
    }
}

} // verus!

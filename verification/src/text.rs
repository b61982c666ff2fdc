//! Human-readable text for decoded values, for display by a caller.

use vstd::prelude::*;
use vstd::string::StringExecFns;

use crate::types::FileFormat;
use crate::types::MidiMessage;

verus! {

/// The character for one decimal digit.
pub open spec fn dec_digit(d: int) -> char {
    if d == 0 {
        '0'
    } else if d == 1 {
        '1'
    } else if d == 2 {
        '2'
    } else if d == 3 {
        '3'
    } else if d == 4 {
        '4'
    } else if d == 5 {
        '5'
    } else if d == 6 {
        '6'
    } else if d == 7 {
        '7'
    } else if d == 8 {
        '8'
    } else {
        '9'
    }
}

/// The decimal digits of `n`, without leading zeroes, for `0 <= n < 1000`.
pub open spec fn dec_str(n: int) -> Seq<char> {
    if n < 10 {
        seq![dec_digit(n)]
    } else if n < 100 {
        seq![dec_digit(n / 10), dec_digit(n % 10)]
    } else {
        seq![dec_digit(n / 100), dec_digit((n / 10) % 10), dec_digit(n % 10)]
    }
}

/// The display text of a file organization.
pub open spec fn file_format_str(f: FileFormat) -> Seq<char> {
    match f {
        FileFormat::SingleTrack => "Single Track"@,
        FileFormat::MultipleSynchronous => "Multiple track, asynchronous"@,
        FileFormat::MultipleAsynchronous => "Multiple track, synchronous"@,
    }
}

/// The display text of a message: its variant name, with its channel and
/// data fields in decimal where it has any.
pub open spec fn message_str(m: MidiMessage) -> Seq<char> {
    match m {
        MidiMessage::NoteOff { channel, key, velocity } => "NoteOff -- channel: "@ + dec_str(
            channel as int,
        ) + ", key: "@ + dec_str(key as int) + ", velocity: "@ + dec_str(velocity as int),
        MidiMessage::NoteOn { channel, key, velocity } => "NoteOn -- channel: "@ + dec_str(
            channel as int,
        ) + ", key: "@ + dec_str(key as int) + ", velocity: "@ + dec_str(velocity as int),
        MidiMessage::Aftertouch { channel, key, velocity } => "Aftertouch -- channel: "@ + dec_str(
            channel as int,
        ) + ", key: "@ + dec_str(key as int) + ", velocity: "@ + dec_str(velocity as int),
        MidiMessage::ControlChange { channel, controller, value } => "ControlChange -- channel: "@
            + dec_str(channel as int) + ", controller : "@ + dec_str(controller as int)
            + ", value: "@ + dec_str(value as int),
        MidiMessage::ProgramChange { channel, new_program } => "ProgramChange -- channel: "@
            + dec_str(channel as int) + ", new_program: "@ + dec_str(new_program as int),
        MidiMessage::ChannelPressure { channel, value } => "ChannelPressure -- channel: "@
            + dec_str(channel as int) + ", value: "@ + dec_str(value as int),
        MidiMessage::PitchWheel { channel, lsb, msb } => "PitchWheel -- channel: "@ + dec_str(
            channel as int,
        ) + ", lsb: "@ + dec_str(lsb as int) + ", msb: "@ + dec_str(msb as int),
        MidiMessage::SystemExclusive { .. } => "SystemExclusive"@,
        MidiMessage::MidiTimeCode { .. } => "MidiTimeCode"@,
        MidiMessage::SongPositionPointer { .. } => "SongPositionPointer"@,
        MidiMessage::SongSelect { .. } => "SongSelect"@,
        MidiMessage::TuneRequest => "Tune Request"@,
        MidiMessage::MidiClock => "Midi Clock"@,
        MidiMessage::MidiStart => "Midi Start"@,
        MidiMessage::MidiContinue => "Midi Continue"@,
        MidiMessage::MidiStop => "Midi Stop"@,
        MidiMessage::ActiveSense => "Active Sense"@,
        MidiMessage::Reset => "Reset"@,
        MidiMessage::InvalidStatus => "Failed to match message."@,
    }
}

/// The string for one decimal digit.
fn digit_to_str(d: u8) -> (r: &'static str)
    requires
        d < 10,
    ensures
        r@ == seq![dec_digit(d as int)],
{
    proof {
        reveal_strlit("0");
        reveal_strlit("1");
        reveal_strlit("2");
        reveal_strlit("3");
        reveal_strlit("4");
        reveal_strlit("5");
        reveal_strlit("6");
        reveal_strlit("7");
        reveal_strlit("8");
        reveal_strlit("9");
    }
    if d == 0 {
        "0"
    } else if d == 1 {
        "1"
    } else if d == 2 {
        "2"
    } else if d == 3 {
        "3"
    } else if d == 4 {
        "4"
    } else if d == 5 {
        "5"
    } else if d == 6 {
        "6"
    } else if d == 7 {
        "7"
    } else if d == 8 {
        "8"
    } else {
        "9"
    }
}

/// Writes a byte's value in decimal.
fn append_u8(s: &mut String, n: u8)
    ensures
        final(s)@ == old(s)@ + dec_str(n as int),
{
    if n >= 100 {
        s.append(digit_to_str(n / 100));
        s.append(digit_to_str((n / 10) % 10));
        s.append(digit_to_str(n % 10));
        proof {
            assert(old(s)@ + seq![dec_digit(n as int / 100)] + seq![
                dec_digit((n as int / 10) % 10),
            ] + seq![dec_digit(n as int % 10)] =~= old(s)@ + dec_str(n as int));
        }
    } else if n >= 10 {
        s.append(digit_to_str(n / 10));
        s.append(digit_to_str(n % 10));
        proof {
            assert(old(s)@ + seq![dec_digit(n as int / 10)] + seq![dec_digit(n as int % 10)]
                =~= old(s)@ + dec_str(n as int));
        }
    } else {
        s.append(digit_to_str(n));
        proof {
            assert(old(s)@ + seq![dec_digit(n as int)] =~= old(s)@ + dec_str(n as int));
        }
    }
}

/// The display text of a file organization.
pub fn file_format_to_string(f: FileFormat) -> (r: String)
    ensures
        r@ == file_format_str(f),
{
    match f {
        FileFormat::SingleTrack => String::from_str("Single Track"),
        FileFormat::MultipleSynchronous => String::from_str("Multiple track, asynchronous"),
        FileFormat::MultipleAsynchronous => String::from_str("Multiple track, synchronous"),
    }
}

/// The display text of a message.
pub fn message_to_string(m: MidiMessage) -> (r: String)
    ensures
        r@ == message_str(m),
{
    match m {
        MidiMessage::NoteOff { channel, key, velocity } => {
            let mut s = String::from_str("NoteOff -- channel: ");
            append_u8(&mut s, channel);
            s.append(", key: ");
            append_u8(&mut s, key);
            s.append(", velocity: ");
            append_u8(&mut s, velocity);
            s
        },
        MidiMessage::NoteOn { channel, key, velocity } => {
            let mut s = String::from_str("NoteOn -- channel: ");
            append_u8(&mut s, channel);
            s.append(", key: ");
            append_u8(&mut s, key);
            s.append(", velocity: ");
            append_u8(&mut s, velocity);
            s
        },
        MidiMessage::Aftertouch { channel, key, velocity } => {
            let mut s = String::from_str("Aftertouch -- channel: ");
            append_u8(&mut s, channel);
            s.append(", key: ");
            append_u8(&mut s, key);
            s.append(", velocity: ");
            append_u8(&mut s, velocity);
            s
        },
        MidiMessage::ControlChange { channel, controller, value } => {
            let mut s = String::from_str("ControlChange -- channel: ");
            append_u8(&mut s, channel);
            s.append(", controller : ");
            append_u8(&mut s, controller);
            s.append(", value: ");
            append_u8(&mut s, value);
            s
        },
        MidiMessage::ProgramChange { channel, new_program } => {
            let mut s = String::from_str("ProgramChange -- channel: ");
            append_u8(&mut s, channel);
            s.append(", new_program: ");
            append_u8(&mut s, new_program);
            s
        },
        MidiMessage::ChannelPressure { channel, value } => {
            let mut s = String::from_str("ChannelPressure -- channel: ");
            append_u8(&mut s, channel);
            s.append(", value: ");
            append_u8(&mut s, value);
            s
        },
        MidiMessage::PitchWheel { channel, lsb, msb } => {
            let mut s = String::from_str("PitchWheel -- channel: ");
            append_u8(&mut s, channel);
            s.append(", lsb: ");
            append_u8(&mut s, lsb);
            s.append(", msb: ");
            append_u8(&mut s, msb);
            s
        },
        MidiMessage::SystemExclusive { .. } => String::from_str("SystemExclusive"),
        MidiMessage::MidiTimeCode { .. } => String::from_str("MidiTimeCode"),
        MidiMessage::SongPositionPointer { .. } => String::from_str("SongPositionPointer"),
        MidiMessage::SongSelect { .. } => String::from_str("SongSelect"),
        MidiMessage::TuneRequest => String::from_str("Tune Request"),
        MidiMessage::MidiClock => String::from_str("Midi Clock"),
        MidiMessage::MidiStart => String::from_str("Midi Start"),
        MidiMessage::MidiContinue => String::from_str("Midi Continue"),
        MidiMessage::MidiStop => String::from_str("Midi Stop"),
        MidiMessage::ActiveSense => String::from_str("Active Sense"),
        MidiMessage::Reset => String::from_str("Reset"),
        MidiMessage::InvalidStatus => String::from_str("Failed to match message."),
    }
}

} // verus!

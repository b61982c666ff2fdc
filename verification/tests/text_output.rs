use midi::FileFormat;
use midi::MidiMessage;
use midi::file_format_to_string;
use midi::message_to_string;

#[test]
fn test_file_format_strings() {
    assert_eq!(file_format_to_string(FileFormat::SingleTrack), "Single Track");
    assert_eq!(
        file_format_to_string(FileFormat::MultipleSynchronous),
        "Multiple track, asynchronous"
    );
    assert_eq!(
        file_format_to_string(FileFormat::MultipleAsynchronous),
        "Multiple track, synchronous"
    );
}

#[test]
fn test_message_strings_channel_voice() {
    assert_eq!(
        message_to_string(MidiMessage::NoteOff {
            channel: 8,
            key: 5,
            velocity: 3
        }),
        "NoteOff -- channel: 8, key: 5, velocity: 3"
    );
    assert_eq!(
        message_to_string(MidiMessage::NoteOn {
            channel: 2,
            key: 38,
            velocity: 0
        }),
        "NoteOn -- channel: 2, key: 38, velocity: 0"
    );
    assert_eq!(
        message_to_string(MidiMessage::Aftertouch {
            channel: 15,
            key: 127,
            velocity: 100
        }),
        "Aftertouch -- channel: 15, key: 127, velocity: 100"
    );
    assert_eq!(
        message_to_string(MidiMessage::ControlChange {
            channel: 0,
            controller: 7,
            value: 99
        }),
        "ControlChange -- channel: 0, controller : 7, value: 99"
    );
    assert_eq!(
        message_to_string(MidiMessage::ProgramChange {
            channel: 1,
            new_program: 42
        }),
        "ProgramChange -- channel: 1, new_program: 42"
    );
    assert_eq!(
        message_to_string(MidiMessage::ChannelPressure {
            channel: 9,
            value: 64
        }),
        "ChannelPressure -- channel: 9, value: 64"
    );
    assert_eq!(
        message_to_string(MidiMessage::PitchWheel {
            channel: 2,
            lsb: 6,
            msb: 3
        }),
        "PitchWheel -- channel: 2, lsb: 6, msb: 3"
    );
}

#[test]
fn test_message_strings_system() {
    assert_eq!(
        message_to_string(MidiMessage::SystemExclusive { amei: 0, nope: 0 }),
        "SystemExclusive"
    );
    assert_eq!(
        message_to_string(MidiMessage::MidiTimeCode {
            message_type: 1,
            values: 2
        }),
        "MidiTimeCode"
    );
    assert_eq!(
        message_to_string(MidiMessage::SongPositionPointer { lsb: 1, msb: 2 }),
        "SongPositionPointer"
    );
    assert_eq!(
        message_to_string(MidiMessage::SongSelect { song: 3 }),
        "SongSelect"
    );
    assert_eq!(message_to_string(MidiMessage::TuneRequest), "Tune Request");
    assert_eq!(message_to_string(MidiMessage::MidiClock), "Midi Clock");
    assert_eq!(message_to_string(MidiMessage::MidiStart), "Midi Start");
    assert_eq!(message_to_string(MidiMessage::MidiContinue), "Midi Continue");
    assert_eq!(message_to_string(MidiMessage::MidiStop), "Midi Stop");
    assert_eq!(message_to_string(MidiMessage::ActiveSense), "Active Sense");
    assert_eq!(message_to_string(MidiMessage::Reset), "Reset");
    assert_eq!(
        message_to_string(MidiMessage::InvalidStatus),
        "Failed to match message."
    );
}

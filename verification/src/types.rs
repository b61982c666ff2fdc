//! The decoded in-memory representation: file, header, tracks, events and
//! messages, together with the spec-level views the contracts speak of.

use vstd::prelude::*;

verus! {

/// A decoded MIDI file: its header and its tracks, in on-disk order.
pub struct MidiFile {
    pub header: MidiHeader,
    pub tracks: Vec<MidiTrack>,
}

/// The file header: the file organization, the declared number of tracks and
/// the timing resolution in ticks per quarter note.
#[derive(Clone, Copy)]
pub struct MidiHeader {
    pub file_format: FileFormat,
    pub num_tracks: u16,
    pub ticks_per_quarter: u16,
}

/// A decoded track: its declared payload length in bytes and its events, in
/// temporal order.
pub struct MidiTrack {
    pub track_length: u32,
    pub events: Vec<MidiEvent>,
}

/// One event of a track: the ticks elapsed since the previous event, and the
/// message itself.
#[derive(Clone, Copy)]
pub struct MidiEvent {
    pub delta_time: u32,
    pub message: MidiMessage,
}

/// The three file organizations a header may declare.
#[derive(Clone, Copy)]
pub enum FileFormat {
    /// A single track (format code 1).
    SingleTrack,
    /// Multiple tracks played synchronously (format code 2).
    MultipleSynchronous,
    /// Multiple tracks played asynchronously (format code 3).
    MultipleAsynchronous,
}

/// The context carried from one event to the next while reading a track: the
/// current read offset, and the status byte of the last decoded message, which
/// resolves running status.
#[derive(Clone, Copy)]
pub struct ContinueTrackRead {
    pub offset: usize,
    pub last_status: u8,
}

/// The closed set of message shapes a status byte can dispatch to.
///
/// Channel Voice variants carry a channel in 0..=15 and data fields masked to
/// 0..=127; System Common and System Realtime variants carry no channel.
#[derive(Clone, Copy)]
pub enum MidiMessage {
    /// Release a note and stop playing it.
    NoteOff { channel: u8, key: u8, velocity: u8 },
    /// Play a note and start sounding it.
    NoteOn { channel: u8, key: u8, velocity: u8 },
    /// Apply pressure to a note already playing.
    Aftertouch { channel: u8, key: u8, velocity: u8 },
    /// Affect a controller, such as a slider, knob, or switch.
    ControlChange { channel: u8, controller: u8, value: u8 },
    /// Assign a program to a channel, such as an instrument or patch.
    ProgramChange { channel: u8, new_program: u8 },
    /// Apply pressure to a whole channel.
    ChannelPressure { channel: u8, value: u8 },
    /// Change a channel's pitch up or down.
    PitchWheel { channel: u8, lsb: u8, msb: u8 },
    /// Perform some device-specific task; its body cannot be decoded.
    SystemExclusive { amei: u32, nope: u8 },
    /// Keep the MIDI time in line with some other device.
    MidiTimeCode { message_type: u8, values: u8 },
    /// Cue to a point in the sequence to be ready to play.
    SongPositionPointer { lsb: u8, msb: u8 },
    /// Set a sequence for playback.
    SongSelect { song: u8 },
    /// Tune.
    TuneRequest,
    /// A tick of the MIDI clock when synchronized to another device.
    MidiClock,
    /// Start playback of a sequence.
    MidiStart,
    /// Resume playback of a sequence.
    MidiContinue,
    /// Stop playback of a sequence.
    MidiStop,
    /// Confirm that a MIDI connection exists.
    ActiveSense,
    /// Reset to the default state.
    Reset,
    /// A status byte that maps to no known pattern; never carried as running
    /// status into a later event.
    InvalidStatus,
}

/// The spec-level value of a decoded track.
pub ghost struct TrackView {
    pub track_length: int,
    pub events: Seq<MidiEvent>,
}

impl View for MidiTrack {
    type V = TrackView;

    open spec fn view(&self) -> TrackView {
        TrackView { track_length: self.track_length as int, events: self.events@ }
    }
}

/// The status byte that governs a message: the inverse of the decoder's
/// dispatch, used to update the running-status context.  `InvalidStatus` maps
/// to the reserved sentinel `0xFD`, which is itself no valid status.
pub open spec fn status_of(m: MidiMessage) -> u8 {
    match m {
        MidiMessage::NoteOff { channel, .. } => 0x80 | channel,
        MidiMessage::NoteOn { channel, .. } => 0x90 | channel,
        MidiMessage::Aftertouch { channel, .. } => 0xa0 | channel,
        MidiMessage::ControlChange { channel, .. } => 0xb0 | channel,
        MidiMessage::ProgramChange { channel, .. } => 0xc0 | channel,
        MidiMessage::ChannelPressure { channel, .. } => 0xd0 | channel,
        MidiMessage::PitchWheel { channel, .. } => 0xe0 | channel,
        MidiMessage::SystemExclusive { .. } => 0xf0,
        MidiMessage::MidiTimeCode { .. } => 0xf1,
        MidiMessage::SongPositionPointer { .. } => 0xf2,
        MidiMessage::SongSelect { .. } => 0xf3,
        MidiMessage::TuneRequest => 0xf6,
        MidiMessage::MidiClock => 0xf8,
        MidiMessage::MidiStart => 0xfa,
        MidiMessage::MidiContinue => 0xfb,
        MidiMessage::MidiStop => 0xfc,
        MidiMessage::ActiveSense => 0xfe,
        MidiMessage::Reset => 0xff,
        MidiMessage::InvalidStatus => 0xfd,
    }
}

/// Field ranges of a well-formed decoded message: channels fit in four bits
/// and data fields in seven.
pub open spec fn message_fields_ok(m: MidiMessage) -> bool {
    match m {
        MidiMessage::NoteOff { channel, key, velocity } => channel < 16 && key < 128 && velocity
            < 128,
        MidiMessage::NoteOn { channel, key, velocity } => channel < 16 && key < 128 && velocity
            < 128,
        MidiMessage::Aftertouch { channel, key, velocity } => channel < 16 && key < 128 && velocity
            < 128,
        MidiMessage::ControlChange { channel, controller, value } => channel < 16 && controller
            < 128 && value < 128,
        MidiMessage::ProgramChange { channel, new_program } => channel < 16 && new_program < 128,
        MidiMessage::ChannelPressure { channel, value } => channel < 16 && value < 128,
        MidiMessage::PitchWheel { channel, lsb, msb } => channel < 16 && lsb < 128 && msb < 128,
        MidiMessage::MidiTimeCode { message_type, values } => message_type < 128 && values < 128,
        MidiMessage::SongPositionPointer { lsb, msb } => lsb < 128 && msb < 128,
        MidiMessage::SongSelect { song } => song < 128,
        _ => true,
    }
}

} // verus!

//! Decoder for the standard MIDI file binary format.
//!
//! A MIDI file is a header chunk followed by track chunks; each track chunk
//! holds a stream of events, an event being a variable-length delta-time
//! followed by a message.  Every decoder here consumes a byte buffer and an
//! offset and is specified against spec-level decode functions over the
//! buffer's byte sequence.

pub mod bytes;
pub mod header;
pub mod message;
pub mod text;
pub mod track;
pub mod types;
pub mod vlq;

pub use bytes::lower_seven_bits;
pub use bytes::msb_is_one;
pub use bytes::u16_from_u8_at;
pub use bytes::u32_from_u8_at;
pub use header::file_format_from_u16;
pub use header::parse_header;
pub use message::get_status_byte;
pub use message::is_invalid_status_byte;
pub use message::parse_message;
pub use text::file_format_to_string;
pub use text::message_to_string;
pub use track::get_track_size;
pub use track::parse_all_tracks;
pub use track::parse_bytes;
pub use track::parse_event;
pub use track::parse_track;
pub use types::ContinueTrackRead;
pub use types::FileFormat;
pub use types::MidiEvent;
pub use types::MidiFile;
pub use types::MidiHeader;
pub use types::MidiMessage;
pub use types::MidiTrack;
pub use vlq::parse_ticks;

//! The track decoder and the whole-buffer decoder.
//!
//! A track chunk opens with the ASCII magic "MTrk" and a big-endian 32-bit
//! payload length, then holds an event stream: repeating pairs of a VLQ
//! delta-time and a message, decoded in order while carrying running status.
//! A file is the 14-byte header followed by as many track chunks as the
//! header declares.

use vstd::prelude::*;

use crate::bytes::be16_at;
use crate::bytes::be32_at;
use crate::bytes::u32_from_u8_at;
use crate::header::header_ok;
use crate::header::header_spec;
use crate::header::parse_header;
use crate::message::get_status_byte;
use crate::message::msg_decode;
use crate::message::parse_message;
use crate::types::ContinueTrackRead;
use crate::types::MidiEvent;
use crate::types::MidiFile;
use crate::types::MidiHeader;
use crate::types::MidiMessage;
use crate::types::MidiTrack;
use crate::types::TrackView;
use crate::types::status_of;
use crate::vlq::parse_ticks;
use crate::vlq::vlq_len_at;
use crate::vlq::vlq_ok;
use crate::vlq::vlq_value_at;

verus! {

/// One event of the stream at offset `i` of `b` with running status `last`:
/// the event, the offset just past it, and the status to carry onward.
/// Nothing when the delta-time or the message is malformed, or when the
/// effective status maps to no known pattern — a sentinel that must never be
/// carried as running status.
pub open spec fn event_decode(b: Seq<u8>, i: int, last: u8) -> Option<(MidiEvent, int, u8)> {
    if !vlq_ok(b, i) {
        None
    } else {
        let j = i + vlq_len_at(b, i);
        match msg_decode(b, j, last) {
            None => None,
            Some((m, k)) => {
                if m is InvalidStatus {
                    None
                } else {
                    Some(
                        (
                            MidiEvent { delta_time: vlq_value_at(b, i) as u32, message: m },
                            k,
                            status_of(m),
                        ),
                    )
                }
            },
        }
    }
}

/// The event stream of a track payload: events decoded in sequence from
/// offset `i` while the offset stays below `end`, threading the running
/// status; nothing as soon as any single event fails.
pub open spec fn events_decode(b: Seq<u8>, i: int, end: int, last: u8) -> Option<Seq<MidiEvent>>
    decreases end - i,
{
    if i >= end {
        Some(Seq::empty())
    } else {
        match event_decode(b, i, last) {
            None => None,
            Some((ev, k, st)) => {
                if k >= end {
                    Some(seq![ev])
                } else {
                    match events_decode(b, k, end, st) {
                        None => None,
                        Some(rest) => Some(seq![ev] + rest),
                    }
                }
            },
        }
    }
}

/// Whether a track chunk header stands at offset `i` of `b`: the ASCII magic
/// "MTrk" with room for the 32-bit payload length after it.
pub open spec fn track_magic_ok(b: Seq<u8>, i: int) -> bool {
    &&& 0 <= i
    &&& i + 8 <= b.len()
    &&& b[i] == 0x4d
    &&& b[i + 1] == 0x54
    &&& b[i + 2] == 0x72
    &&& b[i + 3] == 0x6b
}

/// The payload length a track chunk at offset `i` declares.
pub open spec fn track_size_at(b: Seq<u8>, i: int) -> int {
    be32_at(b, i + 4)
}

/// The track chunk at offset `i` of `b`: its declared length and its decoded
/// event stream, which starts with no running status carried.
pub open spec fn track_decode(b: Seq<u8>, i: int) -> Option<TrackView> {
    if !track_magic_ok(b, i) {
        None
    } else {
        match events_decode(b, i + 8, i + 8 + track_size_at(b, i), 0) {
            None => None,
            Some(evs) => Some(TrackView { track_length: track_size_at(b, i), events: evs }),
        }
    }
}

/// `n` consecutive track chunks starting at offset `i` of `b`, each following
/// the previous one's declared payload; nothing as soon as any track fails.
pub open spec fn tracks_decode(b: Seq<u8>, i: int, n: int) -> Option<Seq<TrackView>>
    decreases n,
{
    if n <= 0 {
        Some(Seq::empty())
    } else {
        match track_decode(b, i) {
            None => None,
            Some(t) => match tracks_decode(b, i + 8 + t.track_length, n - 1) {
                None => None,
                Some(rest) => Some(seq![t] + rest),
            },
        }
    }
}

/// Whether the whole buffer decodes: a well-formed header followed by every
/// track chunk it declares.
pub open spec fn file_decode_ok(b: Seq<u8>) -> bool {
    &&& header_ok(b)
    &&& tracks_decode(b, 14, be16_at(b, 10)) is Some
}

/// The spec-level values of a sequence of decoded tracks.
pub open spec fn track_views(ts: Seq<MidiTrack>) -> Seq<TrackView> {
    ts.map_values(|t: MidiTrack| t@)
}

/// A successfully decoded event ends past where it starts and within the
/// buffer.
proof fn lemma_event_decode_bounds(b: Seq<u8>, i: int, last: u8)
    ensures
        event_decode(b, i, last) matches Some((ev, k, st)) ==> i < k <= b.len(),
{
}

/// If an event stream decodes and starts inside the buffer, its declared end
/// lies within the buffer too (or the stream was empty to begin with).
proof fn lemma_events_end_bound(b: Seq<u8>, i: int, end: int, last: u8)
    requires
        events_decode(b, i, end, last) is Some,
        0 <= i <= b.len(),
    ensures
        end <= b.len() || end <= i,
    decreases end - i,
{
    if i >= end {
    } else {
        let r = event_decode(b, i, last);
        lemma_event_decode_bounds(b, i, last);
        let (ev, k, st) = r->Some_0;
        if k < end {
            lemma_events_end_bound(b, k, end, st);
        }
    }
}

/// Reads the payload length a track chunk declares, from the four bytes after
/// its magic.
pub fn get_track_size(buf: &[u8], offset: usize) -> (r: u32)
    requires
        offset + 8 <= buf@.len(),
    ensures
        r as int == track_size_at(buf@, offset as int),
{
    let len = buf.len();
    proof {
        assert(offset + 4 <= len);
    }
    u32_from_u8_at(buf, offset + 4)
}

/// Decodes one event at the context's offset: the VLQ delta-time, then the
/// message seeded with the carried running status.  Returns the event and the
/// context for the next one.  Fails on a malformed delta-time or message, and
/// when the effective status maps to no known pattern — such a sentinel is
/// never carried onward.
pub fn parse_event(buf: &[u8], cont: ContinueTrackRead) -> (r: Option<
    (MidiEvent, ContinueTrackRead),
>)
    ensures
        (r is Some) <==> (event_decode(buf@, cont.offset as int, cont.last_status) is Some),
        r matches Some((ev, next)) ==> {
            &&& event_decode(buf@, cont.offset as int, cont.last_status) == Some(
                (ev, next.offset as int, next.last_status),
            )
            &&& cont.offset < next.offset <= buf@.len()
        },
{
    match parse_ticks(buf, cont.offset) {
        None => None,
        Some((ticks, offset_after_ticks)) => {
            match parse_message(buf, offset_after_ticks, cont.last_status) {
                None => None,
                Some((message, new_offset)) => {
                    match message {
                        MidiMessage::InvalidStatus => None,
                        _ => {
                            let last_status = get_status_byte(message);
                            Some(
                                (
                                    MidiEvent { delta_time: ticks, message },
                                    ContinueTrackRead { offset: new_offset, last_status },
                                ),
                            )
                        },
                    }
                },
            }
        },
    }
}

/// Decodes the track chunk starting at `offset`: validates the "MTrk" magic,
/// reads the declared payload length, then decodes events until the payload
/// is exhausted.  Any failure inside the chunk aborts the whole track — no
/// partial event list is ever returned.
pub fn parse_track(buf: &[u8], offset: usize) -> (r: Option<MidiTrack>)
    ensures
        (r is Some) <==> (track_decode(buf@, offset as int) is Some),
        r matches Some(t) ==> track_decode(buf@, offset as int) == Some(t@),
{
    let len = buf.len();
    if len < 8 || offset > len - 8 {
        return None;
    }
    if buf[offset] != 0x4d || buf[offset + 1] != 0x54 || buf[offset + 2] != 0x72 || buf[offset + 3]
        != 0x6b {
        return None;
    }
    let track_size = get_track_size(buf, offset);
    let event_offset = offset + 8;
    let ghost iend: int = offset + 8 + track_size_at(buf@, offset as int);
    let mut midi_events: Vec<MidiEvent> = Vec::new();
    let mut cont = ContinueTrackRead { offset: event_offset, last_status: 0x00 };
    while cont.offset - event_offset < track_size as usize
        invariant
            track_magic_ok(buf@, offset as int),
            iend == offset + 8 + track_size_at(buf@, offset as int),
            track_size as int == track_size_at(buf@, offset as int),
            event_offset == offset + 8,
            event_offset <= cont.offset <= buf@.len(),
            buf@.len() <= usize::MAX,
            events_decode(buf@, event_offset as int, iend, 0x00) == (match events_decode(
                buf@,
                cont.offset as int,
                iend,
                cont.last_status,
            ) {
                None => None::<Seq<MidiEvent>>,
                Some(rest) => Some(midi_events@ + rest),
            }),
        decreases buf@.len() - cont.offset,
    {
        match parse_event(buf, cont) {
            None => {
                return None;
            },
            Some((ev, new_cont)) => {
                proof {
                    let b = buf@;
                    let i = cont.offset as int;
                    let k = new_cont.offset as int;
                    let st = new_cont.last_status;
                    let inner = events_decode(b, k, iend, st);
                    if k >= iend {
                        assert(events_decode(b, i, iend, cont.last_status) == Some(seq![ev]));
                        assert(inner == Some(Seq::<MidiEvent>::empty()));
                        assert((midi_events@ + seq![ev]) + Seq::<MidiEvent>::empty() =~= midi_events@
                            + seq![ev]);
                    } else {
                        if inner is Some {
                            let rest = inner->Some_0;
                            assert(events_decode(b, i, iend, cont.last_status) == Some(seq![ev]
                                + rest));
                            assert((midi_events@ + seq![ev]) + rest =~= midi_events@ + (seq![ev]
                                + rest));
                        } else {
                            assert(events_decode(b, i, iend, cont.last_status) is None);
                        }
                    }
                }
                midi_events.push(ev);
                cont = new_cont;
            },
        }
    }
    proof {
        assert(events_decode(buf@, cont.offset as int, iend, cont.last_status) == Some(
            Seq::<MidiEvent>::empty(),
        ));
        assert(midi_events@ + Seq::<MidiEvent>::empty() =~= midi_events@);
    }
    Some(MidiTrack { track_length: track_size, events: midi_events })
}

/// Decodes every track the header declares, each chunk starting where the
/// previous one's declared payload ended, the first just past the 14-byte
/// header.  If any single track fails, the whole result is a failure.
pub fn parse_all_tracks(header: MidiHeader, buf: &[u8]) -> (r: Option<Vec<MidiTrack>>)
    ensures
        (r is Some) <==> (tracks_decode(buf@, 14, header.num_tracks as int) is Some),
        r matches Some(v) ==> tracks_decode(buf@, 14, header.num_tracks as int) == Some(
            track_views(v@),
        ),
{
    let num_tracks = header.num_tracks;
    let len = buf.len();
    proof {
        assert(buf@.len() == len);
    }
    let mut offset: usize = 14;
    let mut return_vec: Vec<MidiTrack> = Vec::new();
    let mut done: u16 = 0;
    proof {
        assert(track_views(return_vec@) + tracks_decode(buf@, 14, num_tracks as int)->Some_0
            =~= tracks_decode(buf@, 14, num_tracks as int)->Some_0);
    }
    while done < num_tracks
        invariant
            num_tracks == header.num_tracks,
            done <= num_tracks,
            offset <= buf@.len() || done == 0,
            buf@.len() <= usize::MAX,
            tracks_decode(buf@, 14, num_tracks as int) == (match tracks_decode(
                buf@,
                offset as int,
                num_tracks as int - done as int,
            ) {
                None => None::<Seq<TrackView>>,
                Some(rest) => Some(track_views(return_vec@) + rest),
            }),
        decreases num_tracks - done,
    {
        match parse_track(buf, offset) {
            None => {
                proof {
                    assert(num_tracks as int - done as int >= 1);
                    assert(track_decode(buf@, offset as int) is None);
                    assert(tracks_decode(buf@, offset as int, num_tracks as int - done as int)
                        is None);
                }
                return None;
            },
            Some(track) => {
                let length = track.track_length;
                proof {
                    let b = buf@;
                    let off = offset as int;
                    let remaining = num_tracks as int - done as int;
                    assert(track_decode(b, off) == Some(track@));
                    assert(track_magic_ok(b, off));
                    assert(events_decode(b, off + 8, off + 8 + track_size_at(b, off), 0)
                        is Some);
                    lemma_events_end_bound(b, off + 8, off + 8 + track_size_at(b, off), 0);
                    assert(off + 8 + track_size_at(b, off) <= b.len());
                    let inner = tracks_decode(b, off + 8 + track@.track_length, remaining - 1);
                    if inner is Some {
                        let rest = inner->Some_0;
                        assert(tracks_decode(b, off, remaining) == Some(seq![track@] + rest));
                        assert(track_views(return_vec@.push(track)) =~= track_views(return_vec@)
                            + seq![track@]);
                        assert((track_views(return_vec@) + seq![track@]) + rest =~= track_views(
                            return_vec@,
                        ) + (seq![track@] + rest));
                    } else {
                        assert(tracks_decode(b, off, remaining) is None);
                    }
                }
                return_vec.push(track);
                offset = offset + 8 + length as usize;
            },
        }
        done = done + 1;
    }
    proof {
        assert(tracks_decode(buf@, offset as int, 0) == Some(Seq::<TrackView>::empty()));
        assert(track_views(return_vec@) + Seq::<TrackView>::empty() =~= track_views(return_vec@));
    }
    Some(return_vec)
}

/// Decodes a whole in-memory MIDI file: the header once, then every track it
/// declares.  Either a fully decoded file comes back, or nothing — a partial
/// or best-effort structure is never returned.
pub fn parse_bytes(buf: &[u8]) -> (r: Option<MidiFile>)
    ensures
        (r is Some) <==> file_decode_ok(buf@),
        r matches Some(f) ==> {
            &&& f.header == header_spec(buf@)
            &&& tracks_decode(buf@, 14, be16_at(buf@, 10)) == Some(track_views(f.tracks@))
        },
{
    match parse_header(buf) {
        None => None,
        Some(header) => {
            match parse_all_tracks(header, buf) {
                None => None,
                Some(tracks) => Some(MidiFile { header, tracks }),
            }
        },
    }
}

} // verus!

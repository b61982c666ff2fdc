use midi::FileFormat;
use midi::MidiMessage;
use midi::parse_header;
use midi::parse_message;
use midi::parse_ticks;
use midi::parse_track;

#[test]
fn test_parse_header_standard() {
    let test1 = [
        0x4D, 0x54, 0x68, 0x64, 0x00, 0x00, 0x00, 0x06, 0x00, 0x01, 0x00, 0x05, 0x00, 0xa0,
    ];
    let rslt = parse_header(&test1);
    match rslt {
        None => {
            assert!(false)
        }
        Some(x) => {
            assert!(x.num_tracks == 5);
            assert!(x.ticks_per_quarter == 160);
            match x.file_format {
                FileFormat::SingleTrack => assert!(true),
                _ => assert!(false),
            }
        }
    }

    let test2 = [
        0x4D, 0x54, 0x68, 0x64, 0x00, 0x00, 0x00, 0x06, 0x00, 0x02, 0x0a, 0x00, 0x01, 0x00,
    ];
    let rslt2 = parse_header(&test2);
    match rslt2 {
        None => {
            assert!(false)
        }
        Some(x) => {
            assert!(x.num_tracks == 2560);
            assert!(x.ticks_per_quarter == 256);
            match x.file_format {
                FileFormat::MultipleSynchronous => assert!(true),
                _ => assert!(false),
            }
        }
    }
}

#[test]
fn test_parse_header_fail() {
    let test3 = [
        0x4D, 0x34, 0x68, 0x64, 0x00, 0x00, 0x00, 0x06, 0x00, 0x02, 0x0a, 0x00, 0x01, 0x00,
    ];
    let rslt3 = parse_header(&test3);
    match rslt3 {
        None => {
            assert!(true)
        }
        Some(_) => {
            assert!(false)
        }
    }
}

#[test]
fn test_parse_ticks_easy() {
    let test_buf = [0x50, 0x90, 0x26, 0x3C];
    match parse_ticks(&test_buf, 0) {
        Some((ticks, new_offset)) => {
            assert!(ticks == 80);
            assert!(new_offset == 1);
        }
        None => {
            assert!(false)
        }
    }
}

#[test]
fn test_parse_ticks_hard() {
    let test_buf = [0x83, 0x60, 0x26, 0x00];
    match parse_ticks(&test_buf, 0) {
        Some((ticks, new_offset)) => {
            assert!(ticks == 480);
            assert!(new_offset == 2);
        }
        None => {
            assert!(false)
        }
    }
}

#[test]
fn test_parse_event_one() {
    let test_buf = [0x88, 0x05, 0x03];
    match parse_message(&test_buf, 0, 0x80) {
        Some((
            MidiMessage::NoteOff {
                channel: c,
                key: k,
                velocity: v,
            },
            3,
        )) => {
            assert!(c == 8);
            assert!(k == 5);
            assert!(v == 3);
        }
        _ => {
            assert!(false);
        }
    }
}

#[test]
fn test_parse_event_two() {
    let test_buf = [0xA3, 0x04, 0x09];
    match parse_message(&test_buf, 0, 0x80) {
        Some((
            MidiMessage::Aftertouch {
                channel: c,
                key: k,
                velocity: v,
            },
            3,
        )) => {
            assert!(c == 3);
            assert!(k == 4);
            assert!(v == 9);
        }
        _ => {
            assert!(false);
        }
    }
}

#[test]
fn test_parse_track_all_complete() {
    // This track contains four events -- NoteOn, PitchWheel, Aftertouch,
    // NoteOff -- each spelled out completely with its own status byte.
    let test_buf = [
        b'M', b'T', b'r', b'k', //
        0x00, 0x00, 0x00, 0x11, // Track length: 17
        0x50, // Delta time: 80
        0x92, 0x05, 0x04, // NoteOn, channel 2, key 5, velocity 4
        0x50, // Delta time: 80
        0xE2, 0x06, 0x03, // PitchWheel, channel 2, lsb 6, msb 3
        0x83, 0x60, // Delta time: 480
        0xA2, 0x05, 0x04, // Aftertouch, channel 2, key 5, velocity 4
        0x50, // Delta time: 80
        0x82, 0x05, 0x04, // NoteOff, channel 2, key 5, velocity 4
    ];

    match parse_track(&test_buf, 0) {
        Some(track) => {
            assert!(track.track_length == 17);

            assert!(track.events[0].delta_time == 80);
            match track.events[0].message {
                MidiMessage::NoteOn {
                    channel: c,
                    key: k,
                    velocity: v,
                } => {
                    assert!(c == 2);
                    assert!(k == 5);
                    assert!(v == 4);
                }
                _ => {
                    assert!(false)
                }
            }

            assert!(track.events[1].delta_time == 80);
            match track.events[1].message {
                MidiMessage::PitchWheel {
                    channel: c,
                    lsb: l,
                    msb: m,
                } => {
                    assert!(c == 2);
                    assert!(l == 6);
                    assert!(m == 3);
                }
                _ => {
                    assert!(false)
                }
            }

            assert!(track.events[2].delta_time == 480);
            match track.events[2].message {
                MidiMessage::Aftertouch {
                    channel: c,
                    key: k,
                    velocity: v,
                } => {
                    assert!(c == 2);
                    assert!(k == 5);
                    assert!(v == 4);
                }
                _ => {
                    assert!(false)
                }
            }

            assert!(track.events[3].delta_time == 80);
            match track.events[3].message {
                MidiMessage::NoteOff {
                    channel: c,
                    key: k,
                    velocity: v,
                } => {
                    assert!(c == 2);
                    assert!(k == 5);
                    assert!(v == 4);
                }
                _ => {
                    assert!(false)
                }
            }
        }
        _ => {
            assert!(false);
        }
    }
}

#[test]
fn test_parse_track_some_ommitted() {
    // This track contains four events -- NoteOn, NoteOn, Aftertouch,
    // Aftertouch -- where the repeated statuses are omitted, exercising
    // running status.
    let test_buf = [
        b'M', b'T', b'r', b'k', //
        0x00, 0x00, 0x00, 0x0F, // Track length: 15
        0x50, // Delta time: 80
        0x92, 0x05, 0x04, // NoteOn, channel 2, key 5, velocity 4
        0x83, 0x60, // Delta time: 480
        0x26, 0x00, // Omit status (NoteOn), channel 2, key 38, velocity 0
        0x50, // Delta time: 80
        0xA2, 0x05, 0x04, // Aftertouch, channel 2, key 5, velocity 4
        0x50, // Delta time: 80
        0x13, 0x05, // Omit status (Aftertouch), channel 2, key 19, velocity 5
    ];

    match parse_track(&test_buf, 0) {
        Some(track) => {
            assert!(track.track_length == 15);

            assert!(track.events[0].delta_time == 80);
            match track.events[0].message {
                MidiMessage::NoteOn {
                    channel: c,
                    key: k,
                    velocity: v,
                } => {
                    assert!(c == 2);
                    assert!(k == 5);
                    assert!(v == 4);
                }
                _ => {
                    assert!(false)
                }
            }

            assert!(track.events[1].delta_time == 480);
            match track.events[1].message {
                MidiMessage::NoteOn {
                    channel: c,
                    key: k,
                    velocity: v,
                } => {
                    assert!(c == 2);
                    assert!(k == 38);
                    assert!(v == 0);
                }
                _ => {
                    assert!(false)
                }
            }

            assert!(track.events[2].delta_time == 80);
            match track.events[2].message {
                MidiMessage::Aftertouch {
                    channel: c,
                    key: k,
                    velocity: v,
                } => {
                    assert!(c == 2);
                    assert!(k == 5);
                    assert!(v == 4);
                }
                _ => {
                    assert!(false)
                }
            }

            assert!(track.events[3].delta_time == 80);
            match track.events[3].message {
                MidiMessage::Aftertouch {
                    channel: c,
                    key: k,
                    velocity: v,
                } => {
                    assert!(c == 2);
                    assert!(k == 19);
                    assert!(v == 5);
                }
                _ => {
                    assert!(false)
                }
            }
        }
        _ => {
            assert!(false);
        }
    }
}

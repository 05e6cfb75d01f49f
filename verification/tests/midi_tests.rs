use blip::midi::{MessageKind, MidiMessage};

#[test]
fn test_midi_message_to_midi_word() {
    let msg = MidiMessage {
        status: 0x90, // Note On
        data1: 0x40,  // Note number (64)
        data2: 0x7F,  // Velocity (127)
    };
    assert_eq!(msg.to_midi_word(), 0x7F4090);
}

#[test]
fn test_midi_message_type() {
    let test_cases = vec![
        (MidiMessage { status: 0x80, data1: 0, data2: 0 }, "Note Off"),
        (MidiMessage { status: 0x90, data1: 0, data2: 64 }, "Note On"),
        (MidiMessage { status: 0x90, data1: 0, data2: 0 }, "Note Off"), // Note On with velocity 0 is Note Off
        (MidiMessage { status: 0xA0, data1: 0, data2: 0 }, "Polyphonic Key Pressure"),
        (MidiMessage { status: 0xB0, data1: 0, data2: 0 }, "Control Change"),
        (MidiMessage { status: 0xC0, data1: 0, data2: 0 }, "Program Change"),
        (MidiMessage { status: 0xD0, data1: 0, data2: 0 }, "Channel Pressure"),
        (MidiMessage { status: 0xE0, data1: 0, data2: 0 }, "Pitch Bend"),
        (MidiMessage { status: 0xF0, data1: 0, data2: 0 }, "Unknown"),
    ];

    for (msg, expected) in test_cases {
        assert_eq!(msg.message_type(), expected);
    }
}

#[test]
fn test_note_name() {
    let test_cases = vec![
        (MidiMessage { status: 0x90, data1: 60, data2: 64 }, "C4"), // Middle C
        (MidiMessage { status: 0x90, data1: 61, data2: 64 }, "C#4"),
        (MidiMessage { status: 0x90, data1: 62, data2: 64 }, "D4"),
        (MidiMessage { status: 0x90, data1: 72, data2: 64 }, "C5"),
        (MidiMessage { status: 0x80, data1: 69, data2: 64 }, "A4"),
        // Test non-note message
        (MidiMessage { status: 0xB0, data1: 60, data2: 64 }, ""),
    ];

    for (msg, expected) in test_cases {
        assert_eq!(msg.note_name(), expected);
    }
}

#[test]
fn test_velocity() {
    let msg = MidiMessage {
        status: 0x90,
        data1: 60,
        data2: 100,
    };
    assert_eq!(msg.velocity(), 100);
}

#[test]
fn kind_follows_the_high_nibble_for_every_status() {
    for status in 0u8..=255 {
        for data2 in [0u8, 1, 64, 127, 255] {
            let msg = MidiMessage { status, data1: 60, data2 };
            let expected = match status & 0xF0 {
                0x80 => MessageKind::NoteOff,
                0x90 if data2 == 0 => MessageKind::NoteOff,
                0x90 => MessageKind::NoteOn,
                0xA0 => MessageKind::PolyKeyPressure,
                0xB0 => MessageKind::ControlChange,
                0xC0 => MessageKind::ProgramChange,
                0xD0 => MessageKind::ChannelPressure,
                0xE0 => MessageKind::PitchBend,
                _ => MessageKind::Unknown,
            };
            assert_eq!(msg.kind(), expected);
            assert_eq!(msg.message_type(), expected.name());
        }
    }
}

#[test]
fn kind_ignores_the_channel_and_the_first_data_byte() {
    for channel in 0u8..16 {
        for data1 in [0u8, 60, 127] {
            let on = MidiMessage { status: 0x90 | channel, data1, data2: 1 };
            let off = MidiMessage { status: 0x90 | channel, data1, data2: 0 };
            assert_eq!(on.kind(), MessageKind::NoteOn);
            assert_eq!(off.kind(), MessageKind::NoteOff);
            let bend = MidiMessage { status: 0xE0 | channel, data1, data2: 0 };
            assert_eq!(bend.kind(), MessageKind::PitchBend);
        }
    }
}

#[test]
fn data_bytes_as_status_are_unknown() {
    for status in [0x00u8, 0x3C, 0x7F, 0xF0, 0xF8, 0xFF] {
        let msg = MidiMessage { status, data1: 1, data2: 2 };
        assert_eq!(msg.kind(), MessageKind::Unknown);
        assert_eq!(msg.message_type(), "Unknown");
        assert_eq!(msg.note_name(), "");
    }
}

#[test]
fn kind_names() {
    assert_eq!(MessageKind::NoteOff.name(), "Note Off");
    assert_eq!(MessageKind::NoteOn.name(), "Note On");
    assert_eq!(MessageKind::PolyKeyPressure.name(), "Polyphonic Key Pressure");
    assert_eq!(MessageKind::ControlChange.name(), "Control Change");
    assert_eq!(MessageKind::ProgramChange.name(), "Program Change");
    assert_eq!(MessageKind::ChannelPressure.name(), "Channel Pressure");
    assert_eq!(MessageKind::PitchBend.name(), "Pitch Bend");
    assert_eq!(MessageKind::Unknown.name(), "Unknown");
}

#[test]
fn note_names_at_the_edges() {
    let name = |data1: u8| MidiMessage { status: 0x90, data1, data2: 1 }.note_name();
    assert_eq!(name(0), "C-1");
    assert_eq!(name(11), "B-1");
    assert_eq!(name(12), "C0");
    assert_eq!(name(23), "B0");
    assert_eq!(name(119), "B8");
    assert_eq!(name(120), "C9");
    assert_eq!(name(127), "G9");
    assert_eq!(name(131), "B9");
    assert_eq!(name(132), "C10");
    assert_eq!(name(255), "D#20");
}

#[test]
fn note_names_follow_the_twelve_tone_table() {
    let table = ["C", "C#", "D", "D#", "E", "F", "F#", "G", "G#", "A", "A#", "B"];
    for data1 in 0u8..=255 {
        let octave: i32 = i32::from(data1 / 12) - 1;
        let expected = format!("{}{}", table[usize::from(data1 % 12)], octave);
        let on = MidiMessage { status: 0x93, data1, data2: 5 };
        let off = MidiMessage { status: 0x8F, data1, data2: 5 };
        assert_eq!(on.note_name(), expected);
        assert_eq!(off.note_name(), expected);
    }
}

#[test]
fn note_on_with_velocity_zero_still_has_a_note_name() {
    let msg = MidiMessage { status: 0x90, data1: 69, data2: 0 };
    assert_eq!(msg.kind(), MessageKind::NoteOff);
    assert!(msg.is_note());
    assert_eq!(msg.note_name(), "A4");
}

#[test]
fn is_note_reads_the_raw_status() {
    assert!(MidiMessage { status: 0x80, data1: 0, data2: 0 }.is_note());
    assert!(MidiMessage { status: 0x9F, data1: 0, data2: 0 }.is_note());
    assert!(!MidiMessage { status: 0xA0, data1: 0, data2: 0 }.is_note());
    assert!(!MidiMessage { status: 0x7F, data1: 0, data2: 0 }.is_note());
    assert!(!MidiMessage { status: 0xF0, data1: 0, data2: 0 }.is_note());
}

#[test]
fn velocity_is_not_checked_against_the_kind() {
    let msg = MidiMessage { status: 0xB0, data1: 7, data2: 33 };
    assert_eq!(msg.velocity(), 33);
    let msg = MidiMessage { status: 0x00, data1: 7, data2: 255 };
    assert_eq!(msg.velocity(), 255);
}

#[test]
fn midi_word_is_little_endian() {
    let msg = MidiMessage { status: 0x90, data1: 72, data2: 0x7F };
    let word: u32 = msg.to_midi_word();
    assert_eq!(word, 0x007F4890);
    assert_eq!(word.to_le_bytes(), [0x90, 72, 0x7F, 0]);
}

#[test]
fn midi_word_round_trips_every_byte() {
    for status in 0u8..=255 {
        for (data1, data2) in [(0u8, 0u8), (255, 255), (0, 255), (255, 0), (60, 100), (status, !status)] {
            let msg = MidiMessage { status, data1, data2 };
            let bytes = msg.to_midi_word().to_le_bytes();
            assert_eq!(bytes, [status, data1, data2, 0]);
            let word = msg.to_midi_word();
            assert_eq!(word & 0xFF, u32::from(status));
            assert_eq!((word >> 8) & 0xFF, u32::from(data1));
            assert_eq!((word >> 16) & 0xFF, u32::from(data2));
            assert_eq!(word >> 24, 0);
        }
    }
}

#[test]
fn messages_compare_by_their_fields() {
    let a = MidiMessage { status: 0x90, data1: 60, data2: 1 };
    let b = a;
    assert_eq!(a, b);
    assert_ne!(a, MidiMessage { status: 0x90, data1: 60, data2: 2 });
}

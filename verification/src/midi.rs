//! The MIDI channel-voice message and the facts derived from it.

use vstd::prelude::*;
use vstd::string::*;

verus! {

/// What a channel-voice message means, as selected by its status byte.
#[derive(Clone, Copy, Debug, PartialEq, Eq, Structural)]
pub enum MessageKind {
    NoteOff,
    NoteOn,
    PolyKeyPressure,
    ControlChange,
    ProgramChange,
    ChannelPressure,
    PitchBend,
    Unknown,
}

/// One three-byte channel-voice MIDI event.
#[derive(Clone, Copy, Debug, PartialEq, Eq, Structural)]
pub struct MidiMessage {
    /// The kind of the message in the high nibble, the channel in the low.
    pub status: u8,
    /// The first data byte: the note number of a Note On or Note Off.
    pub data1: u8,
    /// The second data byte: the velocity of a Note On or Note Off.
    pub data2: u8,
}

/// The upper four bits of a status byte, as a number from 0 to 15.
pub open spec fn high_nibble(status: u8) -> int {
    status as int / 16
}

/// Whether the status byte, taken raw, announces a Note On or a Note Off.
pub open spec fn is_note_status(status: u8) -> bool {
    high_nibble(status) == 8 || high_nibble(status) == 9
}

/// The kind of a message with the given status byte and second data byte.
/// A Note On with velocity zero is a Note Off.
pub open spec fn kind_of(status: u8, data2: u8) -> MessageKind {
    let n = high_nibble(status);
    if n == 8 {
        MessageKind::NoteOff
    } else if n == 9 {
        if data2 == 0 {
            MessageKind::NoteOff
        } else {
            MessageKind::NoteOn
        }
    } else if n == 10 {
        MessageKind::PolyKeyPressure
    } else if n == 11 {
        MessageKind::ControlChange
    } else if n == 12 {
        MessageKind::ProgramChange
    } else if n == 13 {
        MessageKind::ChannelPressure
    } else if n == 14 {
        MessageKind::PitchBend
    } else {
        MessageKind::Unknown
    }
}

/// The display name of a message kind.
pub open spec fn kind_name(kind: MessageKind) -> Seq<char> {
    match kind {
        MessageKind::NoteOff => "Note Off"@,
        MessageKind::NoteOn => "Note On"@,
        MessageKind::PolyKeyPressure => "Polyphonic Key Pressure"@,
        MessageKind::ControlChange => "Control Change"@,
        MessageKind::ProgramChange => "Program Change"@,
        MessageKind::ChannelPressure => "Channel Pressure"@,
        MessageKind::PitchBend => "Pitch Bend"@,
        MessageKind::Unknown => "Unknown"@,
    }
}

/// The name of a pitch class, 0 being C and 11 being B.
pub open spec fn pitch_class_name(class: int) -> Seq<char> {
    if class == 0 {
        "C"@
    } else if class == 1 {
        "C#"@
    } else if class == 2 {
        "D"@
    } else if class == 3 {
        "D#"@
    } else if class == 4 {
        "E"@
    } else if class == 5 {
        "F"@
    } else if class == 6 {
        "F#"@
    } else if class == 7 {
        "G"@
    } else if class == 8 {
        "G#"@
    } else if class == 9 {
        "A"@
    } else if class == 10 {
        "A#"@
    } else {
        "B"@
    }
}

/// The character of a decimal digit.
pub open spec fn digit_char(d: int) -> char {
    ('0' as int + d) as char
}

/// A natural number written in decimal, without leading zeros.
pub open spec fn decimal(n: nat) -> Seq<char>
    decreases n,
{
    if n < 10 {
        seq![digit_char(n as int)]
    } else {
        decimal(n / 10).push(digit_char((n % 10) as int))
    }
}

/// An integer written in decimal, with a minus sign where it is negative.
pub open spec fn signed_decimal(n: int) -> Seq<char> {
    if n < 0 {
        seq!['-'] + decimal((-n) as nat)
    } else {
        decimal(n as nat)
    }
}

/// The octave of a note number; note 60, middle C, lies in octave 4.
pub open spec fn octave_of(note: u8) -> int {
    note as int / 12 - 1
}

/// The name of a note number: its pitch class followed by its octave.
pub open spec fn note_name_of(note: u8) -> Seq<char> {
    pitch_class_name(note as int % 12) + signed_decimal(octave_of(note))
}

/// The byte of a 32-bit word at `offset`, offset 0 being the lowest byte.
pub open spec fn word_byte(word: u32, offset: nat) -> int {
    if offset == 0 {
        word as int % 256
    } else if offset == 1 {
        (word as int / 256) % 256
    } else if offset == 2 {
        (word as int / 65536) % 256
    } else {
        (word as int / 16777216) % 256
    }
}

/// The status byte's masked form is its high nibble shifted back up.
pub proof fn lemma_high_nibble_mask(status: u8)
    ensures
        (status & 0xF0) as int == 16 * high_nibble(status),
        8 <= high_nibble(status) <= 15 <==> status >= 0x80,
{
    assert((status & 0xF0) == (status / 16) * 16) by (bit_vector);
}

fn pitch_class_str(class: u8) -> (name: &'static str)
    requires
        class < 12,
    ensures
        name@ == pitch_class_name(class as int),
{
    match class {
        0 => "C",
        1 => "C#",
        2 => "D",
        3 => "D#",
        4 => "E",
        5 => "F",
        6 => "F#",
        7 => "G",
        8 => "G#",
        9 => "A",
        10 => "A#",
        _ => "B",
    }
}

fn digit_str(d: u8) -> (text: &'static str)
    requires
        d < 10,
    ensures
        text@ == seq![digit_char(d as int)],
{
    proof {
        reveal_strlit("0");
        reveal_strlit("1");
        reveal_strlit("2");
        reveal_strlit("3");
        reveal_strlit("4");
        reveal_strlit("5");
        reveal_strlit("6");
        reveal_strlit("7");
        reveal_strlit("8");
        reveal_strlit("9");
    }
    match d {
        0 => "0",
        1 => "1",
        2 => "2",
        3 => "3",
        4 => "4",
        5 => "5",
        6 => "6",
        7 => "7",
        8 => "8",
        _ => "9",
    }
}

impl MessageKind {
    /// The display name of the kind.
    pub fn name(&self) -> (name: &'static str)
        ensures
            name@ == kind_name(*self),
    {
        match self {
            MessageKind::NoteOff => "Note Off",
            MessageKind::NoteOn => "Note On",
            MessageKind::PolyKeyPressure => "Polyphonic Key Pressure",
            MessageKind::ControlChange => "Control Change",
            MessageKind::ProgramChange => "Program Change",
            MessageKind::ChannelPressure => "Channel Pressure",
            MessageKind::PitchBend => "Pitch Bend",
            MessageKind::Unknown => "Unknown",
        }
    }
}

impl MidiMessage {
    /// The kind of this message.
    pub open spec fn spec_kind(&self) -> MessageKind {
        kind_of(self.status, self.data2)
    }

    /// The message as the word that the output device takes: the status in
    /// the lowest byte, then the two data bytes, the highest byte zero.
    pub open spec fn spec_midi_word(&self) -> u32 {
        (self.status as int + 256 * self.data1 as int + 65536 * self.data2 as int) as u32
    }

    /// The note's name for a Note On or Note Off status, else the empty text.
    pub open spec fn spec_note_name(&self) -> Seq<char> {
        if is_note_status(self.status) {
            note_name_of(self.data1)
        } else {
            Seq::<char>::empty()
        }
    }

    /// Encodes the message as the little-endian word that the output device
    /// takes: the status in the lowest byte, the first data byte above it,
    /// the second above that, and nothing in the highest byte.
    pub fn to_midi_word(&self) -> (word: u32)
        ensures
            word == self.spec_midi_word(),
            word == self.status + 256 * self.data1 + 65536 * self.data2,
            word_byte(word, 0) == self.status,
            word_byte(word, 1) == self.data1,
            word_byte(word, 2) == self.data2,
            word_byte(word, 3) == 0,
    {
        let status = self.status;
        let data1 = self.data1;
        let data2 = self.data2;
        let word = (data2 as u32) << 16 | (data1 as u32) << 8 | (status as u32);
        assert(((data2 as u32) << 16 | (data1 as u32) << 8 | (status as u32)) == status as u32
            + 256 * (data1 as u32) + 65536 * (data2 as u32)) by (bit_vector);
        word
    }

    /// The kind of the message, by the high nibble of its status byte.
    pub fn kind(&self) -> (kind: MessageKind)
        ensures
            kind == self.spec_kind(),
    {
        let status = self.status;
        proof {
            lemma_high_nibble_mask(status);
        }
        match status & 0xF0 {
            0x80 => MessageKind::NoteOff,
            0x90 => if self.data2 == 0 {
                MessageKind::NoteOff
            } else {
                MessageKind::NoteOn
            },
            0xA0 => MessageKind::PolyKeyPressure,
            0xB0 => MessageKind::ControlChange,
            0xC0 => MessageKind::ProgramChange,
            0xD0 => MessageKind::ChannelPressure,
            0xE0 => MessageKind::PitchBend,
            _ => MessageKind::Unknown,
        }
    }

    /// The display name of the message's kind.
    pub fn message_type(&self) -> (name: &'static str)
        ensures
            name@ == kind_name(self.spec_kind()),
    {
        self.kind().name()
    }

    /// Whether the raw status byte announces a Note On or a Note Off.
    pub fn is_note(&self) -> (note: bool)
        ensures
            note == is_note_status(self.status),
    {
        let status = self.status;
        proof {
            lemma_high_nibble_mask(status);
        }
        (status & 0xF0) == 0x90 || (status & 0xF0) == 0x80
    }

    /// The name of the note, such as `C4` for note 60 and `C-1` for note 0,
    /// where the raw status is Note On or Note Off; the empty text for any
    /// other message.
    pub fn note_name(&self) -> (name: String)
        ensures
            name@ == self.spec_note_name(),
    {
        if !self.is_note() {
            return String::new();
        }
        let class: u8 = self.data1 % 12;
        let group: u8 = self.data1 / 12;
        let mut name = String::from_str(pitch_class_str(class));
        if group == 0 {
            proof {
                reveal_strlit("-");
            }
            name.append("-");
            name.append(digit_str(1));
        } else {
            let octave: u8 = group - 1;
            if octave >= 10 {
                name.append(digit_str(octave / 10));
            }
            name.append(digit_str(octave % 10));
            proof {
                reveal_with_fuel(decimal, 2);
            }
        }
        name
    }

    /// The second data byte, whatever the kind of the message.
    pub fn velocity(&self) -> (velocity: u8)
        ensures
            velocity == self.data2,
    {
        self.data2
    }
}

/// The kind depends on the status byte through its high nibble alone, and on
/// the second data byte only for a Note On status, and there only through
/// whether it is zero.
pub proof fn lemma_kind_by_high_nibble(status_a: u8, data2_a: u8, status_b: u8, data2_b: u8)
    requires
        status_a & 0xF0 == status_b & 0xF0,
        status_a & 0xF0 == 0x90 ==> (data2_a == 0 <==> data2_b == 0),
    ensures
        kind_of(status_a, data2_a) == kind_of(status_b, data2_b),
{
    lemma_high_nibble_mask(status_a);
    lemma_high_nibble_mask(status_b);
}

/// Reading the bytes of the encoded word back at offsets 0, 1 and 2 gives
/// the status and the two data bytes again.
pub proof fn lemma_midi_word_round_trip(message: MidiMessage)
    ensures
        word_byte(message.spec_midi_word(), 0) == message.status,
        word_byte(message.spec_midi_word(), 1) == message.data1,
        word_byte(message.spec_midi_word(), 2) == message.data2,
        word_byte(message.spec_midi_word(), 3) == 0,
{
}

} // verus!

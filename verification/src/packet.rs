//! The BLE-MIDI packet decoder and the note transposition.
//!
//! A packet is the payload of one notification: a header byte, a timestamp
//! byte, then at most one event that is read, `[status, data1, data2]`.
//! Whatever follows the fifth byte is left unread.

use vstd::prelude::*;
use crate::error::PacketError;
use crate::midi::{is_note_status, MidiMessage};

verus! {

/// The semitones in one octave.
pub const SEMITONES_PER_OCTAVE: i16 = 12;

/// The highest note number of MIDI.
pub const MAX_NOTE: u8 = 127;

/// The bytes of framing at the head of every packet.
pub const FRAMING_LEN: usize = 2;

/// The length from which on a packet carries a whole event.
pub const EVENT_PACKET_LEN: usize = 5;

/// `n` where it is a note number, else the nearer end of the note range.
pub open spec fn clamp_note(n: int) -> u8 {
    if n < 0 {
        0u8
    } else if n > 127 {
        127u8
    } else {
        n as u8
    }
}

/// The note number moved by `octave_offset` octaves, kept in the note range.
pub open spec fn transposed_note(note: u8, octave_offset: i8) -> u8 {
    clamp_note(note as int + 12 * octave_offset as int)
}

/// The message with its note moved by `octave_offset` octaves where its raw
/// status is Note On or Note Off, else the message itself.
pub open spec fn transposed(message: MidiMessage, octave_offset: i8) -> MidiMessage {
    if is_note_status(message.status) {
        MidiMessage {
            status: message.status,
            data1: transposed_note(message.data1, octave_offset),
            data2: message.data2,
        }
    } else {
        message
    }
}

/// What a packet decodes to: an error below two bytes, no event below five,
/// else the event at offsets 2, 3 and 4.
pub open spec fn decoded(data: Seq<u8>) -> Result<Option<MidiMessage>, PacketError> {
    if data.len() < 2 {
        Err(PacketError::PacketTooShort)
    } else if data.len() < 5 {
        Ok(None)
    } else {
        Ok(Some(MidiMessage { status: data[2], data1: data[3], data2: data[4] }))
    }
}

/// What a packet yields for the output: its decoded event, transposed.
pub open spec fn processed(data: Seq<u8>, octave_offset: i8) -> Result<
    Option<MidiMessage>,
    PacketError,
> {
    match decoded(data) {
        Ok(Some(message)) => Ok(Some(transposed(message, octave_offset))),
        Ok(None) => Ok(None),
        Err(e) => Err(e),
    }
}

/// Moves a note number by whole octaves. A result outside 0..=127 is clamped
/// to the nearer end, never wrapped.
pub fn transpose_note(note: u8, octave_offset: i8) -> (moved: u8)
    ensures
        moved == transposed_note(note, octave_offset),
        moved <= MAX_NOTE,
{
    let shift: i16 = octave_offset as i16 * SEMITONES_PER_OCTAVE;
    let target: i16 = note as i16 + shift;
    if target < 0 {
        0
    } else if target > MAX_NOTE as i16 {
        MAX_NOTE
    } else {
        target as u8
    }
}

/// Transposes a Note On or Note Off by whole octaves and passes every other
/// message through. The test is on the raw status, so a Note On with
/// velocity zero is transposed as well.
pub fn transpose(message: MidiMessage, octave_offset: i8) -> (moved: MidiMessage)
    ensures
        moved == transposed(message, octave_offset),
        moved.status == message.status,
        moved.data2 == message.data2,
        !is_note_status(message.status) ==> moved == message,
        is_note_status(message.status) ==> moved.data1 == clamp_note(
            message.data1 + 12 * octave_offset,
        ),
{
    if message.is_note() {
        MidiMessage {
            status: message.status,
            data1: transpose_note(message.data1, octave_offset),
            data2: message.data2,
        }
    } else {
        message
    }
}

/// Decodes one packet. Fewer than two bytes are an error; two to four bytes
/// are framing without an event; from five bytes on the event is read at
/// offsets 2, 3 and 4 and the rest is ignored.
pub fn decode(data: &[u8]) -> (result: Result<Option<MidiMessage>, PacketError>)
    ensures
        result == decoded(data@),
        result is Err <==> data@.len() < 2,
        result == Ok::<Option<MidiMessage>, PacketError>(None) <==> 2 <= data@.len() < 5,
        result matches Ok(Some(message)) ==> data@.len() >= 5 && message.status == data@[2]
            && message.data1 == data@[3] && message.data2 == data@[4],
{
    if data.len() < FRAMING_LEN {
        return Err(PacketError::PacketTooShort);
    }
    if data.len() >= EVENT_PACKET_LEN {
        Ok(Some(MidiMessage { status: data[2], data1: data[3], data2: data[4] }))
    } else {
        Ok(None)
    }
}

/// Processes one packet up to the point of sending: decodes it and
/// transposes the event it carries. `Ok(Some(m))` asks for `m` to be sent,
/// `Ok(None)` for nothing.
pub fn process_ble_midi_packet(data: &[u8], octave_offset: i8) -> (result: Result<
    Option<MidiMessage>,
    PacketError,
>)
    ensures
        result == processed(data@, octave_offset),
        result is Err <==> data@.len() < 2,
        result matches Ok(found) ==> (found is Some <==> data@.len() >= 5),
{
    match decode(data) {
        Ok(Some(message)) => Ok(Some(transpose(message, octave_offset))),
        Ok(None) => Ok(None),
        Err(e) => Err(e),
    }
}

} // verus!

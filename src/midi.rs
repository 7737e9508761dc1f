//! Note events decoded from raw MIDI messages.

use vstd::prelude::*;

verus! {

/// What a MIDI message means to a monophonic voice.
#[derive(Clone, Copy, Debug, PartialEq, Eq, Structural)]
pub enum MidiEvent {
    NoteOn { pitch: u8, velocity: u8 },
    NoteOff { pitch: u8 },
    Other,
}

/// The event a message carries. A note-off has status `0x80..=0x8F`; a
/// note-on has status `0x90..=0x9F`, and with velocity zero it counts as a
/// note-off. Both need two data bytes below `0x80`; bytes past the third
/// are ignored. Anything else, malformed messages included, is `Other`.
pub open spec fn midi_event_of(bytes: Seq<u8>) -> MidiEvent {
    if bytes.len() >= 3 && bytes[1] < 0x80 && bytes[2] < 0x80 {
        if 0x80 <= bytes[0] < 0x90 || (0x90 <= bytes[0] < 0xa0 && bytes[2] == 0) {
            MidiEvent::NoteOff { pitch: bytes[1] }
        } else if 0x90 <= bytes[0] < 0xa0 {
            MidiEvent::NoteOn { pitch: bytes[1], velocity: bytes[2] }
        } else {
            MidiEvent::Other
        }
    } else {
        MidiEvent::Other
    }
}

/// Relies on wmidi's `MidiMessage::try_from(&[u8])`: it checks the status
/// byte and the two data bytes of a note message, maps channel status
/// `0x8n` to `NoteOff` and `0x9n` to `NoteOn`, except that velocity zero
/// gives `NoteOff`, and fails on a slice that is too short.
#[verifier::external_body]
fn decode_message(bytes: &[u8]) -> (event: MidiEvent)
    ensures
        event == midi_event_of(bytes@),
{
    match wmidi::MidiMessage::try_from(bytes) {
        Ok(wmidi::MidiMessage::NoteOn(_, note, velocity)) => MidiEvent::NoteOn {
            pitch: u8::from(note),
            velocity: u8::from(velocity),
        },
        Ok(wmidi::MidiMessage::NoteOff(_, note, _)) => MidiEvent::NoteOff { pitch: u8::from(note) },
        _ => MidiEvent::Other,
    }
}

impl MidiEvent {
    /// Decodes a raw MIDI message; see [`midi_event_of`].
    pub fn decode(bytes: &[u8]) -> (event: MidiEvent)
        ensures
            event == midi_event_of(bytes@),
            event matches MidiEvent::NoteOn { pitch, velocity } ==> pitch < 0x80 && 0 < velocity < 0x80,
            event matches MidiEvent::NoteOff { pitch } ==> pitch < 0x80,
    {
        decode_message(bytes)
    }
}

} // verus!

//! MIDI channel-voice messages and the laptop-keyboard note map.

use vstd::prelude::*;
use crate::events::MixerEvent;

verus! {

/// The note event of a MIDI channel-voice message whose velocity byte is
/// `velocity`: status high nibble 9 is note-on (note-off when the velocity
/// is 0), 8 is note-off; the low nibble 0..15 is MIDI channel 1..16. Other
/// statuses carry no note.
pub open spec fn note_message<N>(status: u8, note: u8, velocity: u8) -> Option<MixerEvent<N>> {
    let kind = status / 16;
    let channel = (status % 16 + 1) as u8;
    if kind == 9 && velocity > 0 {
        Some(MixerEvent::MidiNoteOn { channel, note, velocity })
    } else if kind == 9 || kind == 8 {
        Some(MixerEvent::MidiNoteOff { channel, note })
    } else {
        None
    }
}

/// A complete three-byte note message; anything shorter carries no note.
pub open spec fn spec_midi_bytes<N>(m: Seq<u8>) -> Option<MixerEvent<N>> {
    if m.len() < 3 {
        None
    } else {
        note_message(m[0], m[1], m[2])
    }
}

/// The host MIDI callback's reading: two bytes suffice, a missing velocity
/// byte reading as 0 (so a two-byte note-on is a note-off).
pub open spec fn spec_midi_event<N>(m: Seq<u8>) -> Option<MixerEvent<N>> {
    if m.len() < 2 {
        None
    } else {
        note_message(
            m[0],
            m[1],
            if m.len() > 2 {
                m[2]
            } else {
                0u8
            },
        )
    }
}

fn note_message_exec<N>(status: u8, note: u8, velocity: u8) -> (r: Option<MixerEvent<N>>)
    ensures
        r == note_message::<N>(status, note, velocity),
{
    assert(status & 0xF0 == 0x90 <==> status / 16 == 9) by (bit_vector);
    assert(status & 0xF0 == 0x80 <==> status / 16 == 8) by (bit_vector);
    assert(status & 0x0F == status % 16) by (bit_vector);
    let kind = status & 0xF0;
    let channel = (status & 0x0F) + 1;
    if kind == 0x90 && velocity > 0 {
        Some(MixerEvent::MidiNoteOn { channel, note, velocity })
    } else if kind == 0x90 || kind == 0x80 {
        Some(MixerEvent::MidiNoteOff { channel, note })
    } else {
        None
    }
}

impl<N> MixerEvent<N> {
    /// Parses a MIDI channel-voice message into a mixer event.
    ///
    /// Channel nibble 0..15 becomes listen channel 1..16.
    /// Note-on with velocity 0 is treated as note-off.
    /// Non-note messages and truncated buffers (fewer than three bytes)
    /// return `None`.
    pub fn from_midi_bytes(message: &[u8]) -> (r: Option<Self>)
        ensures
            r == spec_midi_bytes::<N>(message@),
    {
        if message.len() < 3 {
            return None;
        }
        note_message_exec(message[0], message[1], message[2])
    }
}

/// The laptop host's MIDI input callback parse: like
/// [`MixerEvent::from_midi_bytes`], but a two-byte message is read with
/// velocity 0.
pub fn parse_midi_message<N>(message: &[u8]) -> (r: Option<MixerEvent<N>>)
    ensures
        r == spec_midi_event::<N>(message@),
{
    if message.len() < 2 {
        return None;
    }
    let velocity = if message.len() > 2 {
        message[2]
    } else {
        0
    };
    note_message_exec(message[0], message[1], velocity)
}

/// MIDI note of the laptop keyboard's lowest key (C4).
pub const KEYBOARD_ROOT_NOTE: u8 = 60;

/// Semitone offset of a letter key in the one-octave map
/// `A W S E D F T G Y H U J K` = `C C# D D# E F F# G G# A A# B C`.
pub open spec fn key_offset(c: char) -> Option<u8> {
    if c == 'a' || c == 'A' {
        Some(0)
    } else if c == 'w' || c == 'W' {
        Some(1)
    } else if c == 's' || c == 'S' {
        Some(2)
    } else if c == 'e' || c == 'E' {
        Some(3)
    } else if c == 'd' || c == 'D' {
        Some(4)
    } else if c == 'f' || c == 'F' {
        Some(5)
    } else if c == 't' || c == 'T' {
        Some(6)
    } else if c == 'g' || c == 'G' {
        Some(7)
    } else if c == 'y' || c == 'Y' {
        Some(8)
    } else if c == 'h' || c == 'H' {
        Some(9)
    } else if c == 'u' || c == 'U' {
        Some(10)
    } else if c == 'j' || c == 'J' {
        Some(11)
    } else if c == 'k' || c == 'K' {
        Some(12)
    } else {
        None
    }
}

/// The note a character key plays, if it is in the keyboard map.
pub fn key_to_note(c: char) -> (r: Option<u8>)
    ensures
        r == (match key_offset(c) {
            Some(o) => Some((KEYBOARD_ROOT_NOTE + o) as u8),
            None => None,
        }),
{
    let offset: u8 = if c == 'a' || c == 'A' {
        0
    } else if c == 'w' || c == 'W' {
        1
    } else if c == 's' || c == 'S' {
        2
    } else if c == 'e' || c == 'E' {
        3
    } else if c == 'd' || c == 'D' {
        4
    } else if c == 'f' || c == 'F' {
        5
    } else if c == 't' || c == 'T' {
        6
    } else if c == 'g' || c == 'G' {
        7
    } else if c == 'y' || c == 'Y' {
        8
    } else if c == 'h' || c == 'H' {
        9
    } else if c == 'u' || c == 'U' {
        10
    } else if c == 'j' || c == 'J' {
        11
    } else if c == 'k' || c == 'K' {
        12
    } else {
        return None;
    };
    Some(KEYBOARD_ROOT_NOTE + offset)
}

/// The keyboard's play row, left to right.
pub open spec fn key_row() -> Seq<char> {
    seq!['a', 'w', 's', 'e', 'd', 'f', 't', 'g', 'y', 'h', 'u', 'j', 'k']
}

/// The play row in capitals.
pub open spec fn key_row_upper() -> Seq<char> {
    seq!['A', 'W', 'S', 'E', 'D', 'F', 'T', 'G', 'Y', 'H', 'U', 'J', 'K']
}

/// The keys A W S E D F T G Y H U J K, in that order and in either case,
/// play the consecutive notes 60 through 72 (C4 up to C5); no other key
/// plays a note.
pub proof fn lemma_keys_play_semitones(c: char)
    ensures
        forall|k: int|
            0 <= k < 13 ==> key_offset(#[trigger] key_row()[k]) == Some(k as u8) && key_offset(
                key_row_upper()[k],
            ) == Some(k as u8),
        !key_row().contains(c) && !key_row_upper().contains(c) ==> key_offset(c) is None,
        key_offset(c) matches Some(o) ==> o <= 12 && KEYBOARD_ROOT_NOTE + o <= 72,
{
    assert(key_row() =~= seq!['a', 'w', 's', 'e', 'd', 'f', 't', 'g', 'y', 'h', 'u', 'j', 'k']);
    assert forall|k: int| 0 <= k < 13 implies key_offset(#[trigger] key_row()[k]) == Some(k as u8)
        && key_offset(key_row_upper()[k]) == Some(k as u8) by {
        assert(key_row()[0] == 'a' && key_row()[1] == 'w' && key_row()[2] == 's');
        assert(key_row()[3] == 'e' && key_row()[4] == 'd' && key_row()[5] == 'f');
        assert(key_row()[6] == 't' && key_row()[7] == 'g' && key_row()[8] == 'y');
        assert(key_row()[9] == 'h' && key_row()[10] == 'u' && key_row()[11] == 'j');
        assert(key_row()[12] == 'k');
        assert(key_row_upper()[0] == 'A' && key_row_upper()[1] == 'W' && key_row_upper()[2] == 'S');
        assert(key_row_upper()[3] == 'E' && key_row_upper()[4] == 'D' && key_row_upper()[5] == 'F');
        assert(key_row_upper()[6] == 'T' && key_row_upper()[7] == 'G' && key_row_upper()[8] == 'Y');
        assert(key_row_upper()[9] == 'H' && key_row_upper()[10] == 'U' && key_row_upper()[11] == 'J');
        assert(key_row_upper()[12] == 'K');
    }
    if key_offset(c) is Some {
        let o = key_offset(c)->0;
        assert(key_row()[o as int] == c || key_row_upper()[o as int] == c);
    }
}

/// Reading a three-byte message: a status from 0x90 to 0x9F is note-on on
/// channel status - 0x90 + 1 (note-off when the velocity is 0), a status
/// from 0x80 to 0x8F is note-off on channel status - 0x80 + 1, and any other
/// status carries no note. The note and velocity pass through unchanged.
/// The host callback reads a two-byte message the same way with velocity 0.
pub proof fn lemma_note_messages<N>(status: u8, note: u8, velocity: u8)
    ensures
        0x90 <= status <= 0x9F && velocity > 0 ==> spec_midi_bytes::<N>(seq![status, note, velocity])
            == Some(MixerEvent::<N>::MidiNoteOn { channel: (status - 0x90 + 1) as u8, note, velocity }),
        0x90 <= status <= 0x9F && velocity == 0 ==> spec_midi_bytes::<N>(
            seq![status, note, velocity],
        ) == Some(MixerEvent::<N>::MidiNoteOff { channel: (status - 0x90 + 1) as u8, note }),
        0x80 <= status <= 0x8F ==> spec_midi_bytes::<N>(seq![status, note, velocity]) == Some(
            MixerEvent::<N>::MidiNoteOff { channel: (status - 0x80 + 1) as u8, note },
        ),
        !(0x80 <= status <= 0x9F) ==> spec_midi_bytes::<N>(seq![status, note, velocity]) is None,
        spec_midi_event::<N>(seq![status, note, velocity]) == spec_midi_bytes::<N>(
            seq![status, note, velocity],
        ),
        spec_midi_event::<N>(seq![status, note]) == spec_midi_bytes::<N>(seq![status, note, 0u8]),
        spec_midi_bytes::<N>(seq![status, note]) is None,
{
}

} // verus!

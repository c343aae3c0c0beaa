//! The breadboard demo: each button press plays a C major arpeggio on
//! engine 1, and every press after the first loads a random patch first.

use vstd::prelude::*;
use crate::events::MixerEvent;

verus! {

/// Notes of the arpeggio, in play order.
pub const ARPEGGIO_NOTES: [u8; 3] = [60, 64, 67];

/// How long each arpeggio note is held.
pub const GATE_MS: u64 = 1_000;

/// Silence between arpeggio notes.
pub const REST_MS: u64 = 2_000;

/// MIDI channel the demo plays on (engine 1 listens there).
pub const DEMO_CHANNEL: u8 = 1;

/// Velocity of every demo note.
pub const DEMO_VELOCITY: u8 = 100;

/// One step of the arpeggio, performed in order by the firmware.
#[derive(Debug, Clone, Copy, PartialEq)]
pub enum ArpStep<N> {
    /// Set the light that shows a held note.
    Gate { on: bool },
    /// Queue an event for the audio side.
    Send(MixerEvent<N>),
    /// Wait this many milliseconds.
    Wait { ms: u64 },
}

/// The steps that play one note: LED on, note-on, hold, note-off, LED off.
pub open spec fn note_steps<N>(note: u8) -> Seq<ArpStep<N>> {
    seq![
        ArpStep::Gate { on: true },
        ArpStep::Send(MixerEvent::MidiNoteOn { channel: DEMO_CHANNEL, note, velocity: DEMO_VELOCITY }),
        ArpStep::Wait { ms: GATE_MS },
        ArpStep::Send(MixerEvent::MidiNoteOff { channel: DEMO_CHANNEL, note }),
        ArpStep::Gate { on: false },
    ]
}

/// The whole arpeggio: each note in turn, with a rest between notes and
/// none after the last.
pub open spec fn spec_arpeggio<N>() -> Seq<ArpStep<N>> {
    note_steps::<N>(60) + seq![ArpStep::Wait { ms: REST_MS }] + note_steps::<N>(64) + seq![
        ArpStep::Wait { ms: REST_MS },
    ] + note_steps::<N>(67)
}

fn push_note_steps<N>(out: &mut Vec<ArpStep<N>>, note: u8)
    ensures
        final(out)@ == old(out)@ + note_steps::<N>(note),
{
    out.push(ArpStep::Gate { on: true });
    out.push(
        ArpStep::Send(MixerEvent::MidiNoteOn { channel: DEMO_CHANNEL, note, velocity: DEMO_VELOCITY }),
    );
    out.push(ArpStep::Wait { ms: GATE_MS });
    out.push(ArpStep::Send(MixerEvent::MidiNoteOff { channel: DEMO_CHANNEL, note }));
    out.push(ArpStep::Gate { on: false });
    assert(final(out)@ =~= old(out)@ + note_steps::<N>(note));
}

/// The arpeggio as steps for the firmware to perform.
pub fn play_arpeggio<N>() -> (r: Vec<ArpStep<N>>)
    ensures
        r@ == spec_arpeggio::<N>(),
{
    let mut out: Vec<ArpStep<N>> = Vec::new();
    let last = ARPEGGIO_NOTES.len() - 1;
    let mut index: usize = 0;
    while index < ARPEGGIO_NOTES.len()
        invariant
            last == 2,
            index <= 3,
            index == 0 ==> out@ == Seq::<ArpStep<N>>::empty(),
            index == 1 ==> out@ == note_steps::<N>(60) + seq![ArpStep::Wait { ms: REST_MS }],
            index == 2 ==> out@ == note_steps::<N>(60) + seq![ArpStep::Wait { ms: REST_MS }]
                + note_steps::<N>(64) + seq![ArpStep::Wait { ms: REST_MS }],
            index == 3 ==> out@ == spec_arpeggio::<N>(),
        decreases 3 - index,
    {
        let note = ARPEGGIO_NOTES[index];
        let ghost before = out@;
        push_note_steps(&mut out, note);
        if index != last {
            out.push(ArpStep::Wait { ms: REST_MS });
        }
        proof {
            if index == 0 {
                assert(out@ =~= note_steps::<N>(60) + seq![ArpStep::Wait { ms: REST_MS }]);
            } else if index == 1 {
                assert(out@ =~= before + note_steps::<N>(64) + seq![ArpStep::Wait { ms: REST_MS }]);
            } else {
                assert(out@ =~= before + note_steps::<N>(67));
            }
        }
        index = index + 1;
    }
    out
}

/// Whether the demo has seen its first press.
pub struct DemoButton {
    pressed_before: bool,
}

impl DemoButton {
    pub closed spec fn pressed_before(&self) -> bool {
        self.pressed_before
    }

    /// No press yet.
    pub fn new() -> (r: DemoButton)
        ensures
            !r.pressed_before(),
    {
        DemoButton { pressed_before: false }
    }

    /// A press: the first plays the patch as it is; every later press asks
    /// for a random patch before the arpeggio.
    pub fn on_press(&mut self) -> (randomize: bool)
        ensures
            randomize == old(self).pressed_before(),
            final(self).pressed_before(),
    {
        let randomize = self.pressed_before;
        self.pressed_before = true;
        randomize
    }
}

} // verus!

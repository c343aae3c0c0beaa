//! Mixer routing: which engine slot an event reaches, and the per-slot
//! enabled flag and MIDI listen channel.
//!
//! Four slots. Slot 1 starts enabled on channel 1; slots 2-4 start disabled
//! on channels 2, 3, and 4. MIDI notes reach every enabled slot whose listen
//! channel matches. Turning a slot off silences it at once. The audio side
//! performs the returned [`Delivery`] list in order.

use vstd::prelude::*;
use crate::events::{ControlEvent, InstanceEvent, MixerEvent, ENGINE_COUNT};

verus! {

/// Routing state of one mixer slot.
#[derive(Debug, Clone, Copy, PartialEq, Eq, Structural)]
pub struct SlotRouting {
    pub enabled: bool,
    /// MIDI channel 1 through 16.
    pub listen_channel: u8,
}

/// What the audio side does to one engine slot (0-based `index`).
#[derive(Debug, Clone, Copy, PartialEq)]
pub enum Delivery<N> {
    /// Apply a note or param change to the slot's engine.
    Control { index: usize, event: ControlEvent<N> },
    /// Force every envelope of the slot's engine to idle (slot turned off).
    Silence { index: usize },
    /// Set the slot's output volume.
    Volume { index: usize, amount: N },
}

pub open spec fn spec_instance_index(instance: u8) -> Option<usize> {
    if 1 <= instance <= ENGINE_COUNT {
        Some((instance - 1) as usize)
    } else {
        None
    }
}

/// Maps a 1-based instance number to a 0-based slot index.
pub fn instance_index(instance: u8) -> (r: Option<usize>)
    ensures
        r == spec_instance_index(instance),
{
    if instance >= 1 && (instance as usize) <= ENGINE_COUNT {
        Some((instance - 1) as usize)
    } else {
        None
    }
}

/// `channel.clamp(1, 16)`
pub open spec fn clamp_channel(channel: u8) -> u8 {
    if channel < 1 {
        1
    } else if channel > 16 {
        16
    } else {
        channel
    }
}

/// Whether a slot hears a MIDI note on `channel`.
pub open spec fn hears(slot: SlotRouting, channel: u8) -> bool {
    slot.enabled && slot.listen_channel == channel
}

/// Indices `from..slots.len()` of the slots that hear `channel`, in order.
pub open spec fn listeners_from(slots: Seq<SlotRouting>, channel: u8, from: int) -> Seq<usize>
    decreases slots.len() - from,
{
    if from >= slots.len() || from < 0 {
        seq![]
    } else if hears(slots[from], channel) {
        seq![from as usize] + listeners_from(slots, channel, from + 1)
    } else {
        listeners_from(slots, channel, from + 1)
    }
}

/// Indices of the slots that hear `channel`, in slot order.
pub open spec fn listeners(slots: Seq<SlotRouting>, channel: u8) -> Seq<usize> {
    listeners_from(slots, channel, 0)
}

/// One note event delivered to each listening slot, in slot order.
pub open spec fn note_deliveries<N>(slots: Seq<SlotRouting>, channel: u8, event: ControlEvent<N>) -> Seq<
    Delivery<N>,
> {
    listeners(slots, channel).map_values(|i: usize| Delivery::Control { index: i, event })
}

/// The slots after an event, and the deliveries the event causes.
pub open spec fn spec_route<N>(slots: Seq<SlotRouting>, event: MixerEvent<N>) -> (
    Seq<SlotRouting>,
    Seq<Delivery<N>>,
) {
    match event {
        MixerEvent::ToInstance { instance, event } => match spec_instance_index(instance) {
            None => (slots, seq![]),
            Some(i) => match event {
                InstanceEvent::Engine(c) => (slots, seq![Delivery::Control { index: i, event: c }]),
                InstanceEvent::SetEnabled { on } => (
                    slots.update(
                        i as int,
                        SlotRouting { enabled: on, listen_channel: slots[i as int].listen_channel },
                    ),
                    if on {
                        seq![]
                    } else {
                        seq![Delivery::Silence { index: i }]
                    },
                ),
                InstanceEvent::SetListenChannel { channel } => (
                    slots.update(
                        i as int,
                        SlotRouting {
                            enabled: slots[i as int].enabled,
                            listen_channel: clamp_channel(channel),
                        },
                    ),
                    seq![],
                ),
                InstanceEvent::SetVolume { amount } => (
                    slots,
                    seq![Delivery::Volume { index: i, amount }],
                ),
            },
        },
        MixerEvent::MidiNoteOn { channel, note, velocity } => (
            slots,
            note_deliveries(slots, channel, ControlEvent::NoteOn { note, velocity }),
        ),
        MixerEvent::MidiNoteOff { channel, note } => (
            slots,
            note_deliveries(slots, channel, ControlEvent::NoteOff { note }),
        ),
    }
}

/// Enabled flags and listen channels of the four mixer slots.
pub struct Router {
    slots: Vec<SlotRouting>,
}

impl View for Router {
    type V = Seq<SlotRouting>;

    closed spec fn view(&self) -> Seq<SlotRouting> {
        self.slots@
    }
}

/// The startup routing.
pub open spec fn initial_routing() -> Seq<SlotRouting> {
    seq![
        SlotRouting { enabled: true, listen_channel: 1 },
        SlotRouting { enabled: false, listen_channel: 2 },
        SlotRouting { enabled: false, listen_channel: 3 },
        SlotRouting { enabled: false, listen_channel: 4 },
    ]
}

impl Router {
    /// Four slots, and every listen channel in 1..=16.
    pub open spec fn wf(&self) -> bool {
        &&& self@.len() == ENGINE_COUNT
        &&& forall|i: int|
            0 <= i < self@.len() ==> 1 <= #[trigger] self@[i].listen_channel <= 16
    }

    pub fn new() -> (r: Router)
        ensures
            r@ == initial_routing(),
            r.wf(),
    {
        let mut slots = Vec::new();
        slots.push(SlotRouting { enabled: true, listen_channel: 1 });
        slots.push(SlotRouting { enabled: false, listen_channel: 2 });
        slots.push(SlotRouting { enabled: false, listen_channel: 3 });
        slots.push(SlotRouting { enabled: false, listen_channel: 4 });
        let r = Router { slots };
        assert(r@ =~= initial_routing());
        r
    }

    /// Routing of one slot (0-based).
    pub fn slot(&self, index: usize) -> (r: SlotRouting)
        requires
            self.wf(),
            index < ENGINE_COUNT,
        ensures
            r == self@[index as int],
    {
        self.slots[index]
    }

    /// Indices of the slots that hear a MIDI note on `channel`, in slot order.
    pub fn listeners(&self, channel: u8) -> (r: Vec<usize>)
        requires
            self.wf(),
        ensures
            r@ == listeners(self@, channel),
    {
        let mut out: Vec<usize> = Vec::new();
        let mut i: usize = ENGINE_COUNT;
        proof {
            assert(listeners_from(self@, channel, ENGINE_COUNT as int) =~= Seq::<usize>::empty());
        }
        while i > 0
            invariant
                i <= ENGINE_COUNT,
                self.wf(),
                out@ == listeners_from(self@, channel, i as int),
            decreases i,
        {
            i = i - 1;
            let s = self.slots[i];
            if s.enabled && s.listen_channel == channel {
                let mut one = Vec::new();
                one.push(i);
                one.append(&mut out);
                out = one;
            }
        }
        out
    }

    proof fn lemma_note_targets<N>(
        &self,
        targets: &Vec<usize>,
        out: &Vec<Delivery<N>>,
        channel: u8,
        control: ControlEvent<N>,
    )
        requires
            self.wf(),
            targets@ == listeners(self@, channel),
            out@ == targets@.map_values(|i: usize| Delivery::Control { index: i, event: control }),
        ensures
            forall|i: int|
                0 <= i < ENGINE_COUNT ==> (out@.contains(
                    Delivery::Control { index: i as usize, event: control },
                ) <==> hears(self@[i], channel)),
            forall|k: int|
                0 <= k < out@.len() ==> #[trigger] out@[k] == (Delivery::Control {
                    index: out@[k]->Control_index,
                    event: control,
                }),
            forall|a: int, b: int|
                0 <= a < b < out@.len() ==> #[trigger] out@[a]->Control_index < #[trigger] out@[b]->Control_index,
    {
        lemma_listeners_from(self@, channel, 0);
        let l = targets@;
        assert forall|i: int| 0 <= i < ENGINE_COUNT implies (out@.contains(
            Delivery::Control { index: i as usize, event: control },
        ) <==> hears(self@[i], channel)) by {
            if out@.contains(Delivery::Control { index: i as usize, event: control }) {
                let k = choose|k: int|
                    0 <= k < out@.len() && out@[k] == Delivery::Control { index: i as usize, event: control };
                assert(l[k] == i as usize);
                assert(l.contains(i as usize));
            }
            if hears(self@[i], channel) {
                assert(l.contains(i as usize));
                let k = choose|k: int| 0 <= k < l.len() && l[k] == i as usize;
                assert(out@[k] == Delivery::Control { index: i as usize, event: control });
            }
        }
        assert forall|a: int, b: int| 0 <= a < b < out@.len() implies #[trigger] out@[a]->Control_index
            < #[trigger] out@[b]->Control_index by {
            assert(out@[a]->Control_index == l[a]);
            assert(out@[b]->Control_index == l[b]);
        }
    }

    /// Updates routing for one event and returns, in order, what the audio
    /// side must do to the engines.
    pub fn route<N>(&mut self, event: MixerEvent<N>) -> (r: Vec<Delivery<N>>)
        requires
            old(self).wf(),
        ensures
            final(self).wf(),
            final(self)@ == spec_route(old(self)@, event).0,
            r@ == spec_route(old(self)@, event).1,
            event matches MixerEvent::MidiNoteOn { channel, note, velocity } ==> {
                &&& final(self)@ == old(self)@
                &&& forall|i: int|
                    0 <= i < ENGINE_COUNT ==> (r@.contains(
                        Delivery::<N>::Control { index: i as usize, event: ControlEvent::NoteOn { note, velocity } },
                    ) <==> hears(old(self)@[i], channel))
                &&& forall|k: int|
                    0 <= k < r@.len() ==> #[trigger] r@[k] == (Delivery::<N>::Control {
                        index: r@[k]->Control_index,
                        event: ControlEvent::NoteOn { note, velocity },
                    })
                &&& forall|a: int, b: int|
                    0 <= a < b < r@.len() ==> #[trigger] r@[a]->Control_index < #[trigger] r@[b]->Control_index
            },
            event matches MixerEvent::MidiNoteOff { channel, note } ==> {
                &&& final(self)@ == old(self)@
                &&& forall|i: int|
                    0 <= i < ENGINE_COUNT ==> (r@.contains(
                        Delivery::<N>::Control { index: i as usize, event: ControlEvent::NoteOff { note } },
                    ) <==> hears(old(self)@[i], channel))
                &&& forall|k: int|
                    0 <= k < r@.len() ==> #[trigger] r@[k] == (Delivery::<N>::Control {
                        index: r@[k]->Control_index,
                        event: ControlEvent::NoteOff { note },
                    })
                &&& forall|a: int, b: int|
                    0 <= a < b < r@.len() ==> #[trigger] r@[a]->Control_index < #[trigger] r@[b]->Control_index
            },
    {
        match event {
            MixerEvent::ToInstance { instance, event: inner } => {
                let index = match instance_index(instance) {
                    Some(i) => i,
                    None => return Vec::new(),
                };
                let mut out = Vec::new();
                match inner {
                    InstanceEvent::Engine(c) => {
                        out.push(Delivery::Control { index, event: c });
                    },
                    InstanceEvent::SetEnabled { on } => {
                        let s = self.slots[index];
                        self.slots.set(index, SlotRouting { enabled: on, listen_channel: s.listen_channel });
                        if !on {
                            out.push(Delivery::Silence { index });
                        }
                    },
                    InstanceEvent::SetListenChannel { channel } => {
                        let s = self.slots[index];
                        let c = if channel < 1 {
                            1
                        } else if channel > 16 {
                            16
                        } else {
                            channel
                        };
                        self.slots.set(index, SlotRouting { enabled: s.enabled, listen_channel: c });
                    },
                    InstanceEvent::SetVolume { amount } => {
                        out.push(Delivery::Volume { index, amount });
                    },
                }
                proof {
                    assert(out@ =~= spec_route(old(self)@, event).1);
                    assert(self@ =~= spec_route(old(self)@, event).0);
                }
                out
            },
            MixerEvent::MidiNoteOn { channel, note, velocity } => {
                let targets = self.listeners(channel);
                let out = deliver_note(&targets, true, note, velocity);
                proof {
                    self.lemma_note_targets(&targets, &out, channel, note_event::<N>(true, note, velocity));
                }
                out
            },
            MixerEvent::MidiNoteOff { channel, note } => {
                let targets = self.listeners(channel);
                let out = deliver_note(&targets, false, note, 0);
                proof {
                    self.lemma_note_targets(&targets, &out, channel, note_event::<N>(false, note, 0));
                }
                out
            },
        }
    }
}

/// A note-on (`on`) or note-off for one engine.
pub open spec fn note_event<N>(on: bool, note: u8, velocity: u8) -> ControlEvent<N> {
    if on {
        ControlEvent::NoteOn { note, velocity }
    } else {
        ControlEvent::NoteOff { note }
    }
}

/// The same note event to each target slot.
fn deliver_note<N>(targets: &Vec<usize>, on: bool, note: u8, velocity: u8) -> (r: Vec<Delivery<N>>)
    ensures
        r@ == targets@.map_values(
            |i: usize| Delivery::Control { index: i, event: note_event::<N>(on, note, velocity) },
        ),
{
    let mut out: Vec<Delivery<N>> = Vec::new();
    let mut k: usize = 0;
    while k < targets.len()
        invariant
            k <= targets@.len(),
            out@ == targets@.take(k as int).map_values(
                |i: usize| Delivery::Control { index: i, event: note_event::<N>(on, note, velocity) },
            ),
        decreases targets@.len() - k,
    {
        let event = if on {
            ControlEvent::NoteOn { note, velocity }
        } else {
            ControlEvent::NoteOff { note }
        };
        out.push(Delivery::Control { index: targets[k], event });
        assert(targets@.take(k + 1) =~= targets@.take(k as int).push(targets@[k as int]));
        k = k + 1;
    }
    assert(targets@.take(targets@.len() as int) =~= targets@);
    out
}

/// MIDI notes never change routing: a slot is enabled and listening exactly
/// as before, whatever notes arrive.
pub proof fn lemma_notes_keep_routing<N>(slots: Seq<SlotRouting>, event: MixerEvent<N>)
    requires
        event is MidiNoteOn || event is MidiNoteOff,
    ensures
        spec_route(slots, event).0 == slots,
{
}

/// A note reaches a slot exactly when that slot is enabled and listens on the
/// note's channel; each such slot gets it once, in slot order.
pub proof fn lemma_note_reaches_exactly_listeners(slots: Seq<SlotRouting>, channel: u8, i: int)
    requires
        0 <= i < slots.len(),
        slots.len() <= usize::MAX,
    ensures
        listeners(slots, channel).contains(i as usize) <==> (slots[i].enabled
            && slots[i].listen_channel == channel),
        listeners(slots, channel).no_duplicates(),
{
    lemma_listeners_from(slots, channel, 0);
}

proof fn lemma_listeners_from(slots: Seq<SlotRouting>, channel: u8, from: int)
    requires
        0 <= from <= slots.len(),
        slots.len() <= usize::MAX,
    ensures
        forall|i: int|
            0 <= i < slots.len() ==> (listeners_from(slots, channel, from).contains(i as usize) <==> (
            from <= i && hears(slots[i], channel))),
        forall|k: int|
            0 <= k < listeners_from(slots, channel, from).len() ==> from <= #[trigger] listeners_from(
                slots,
                channel,
                from,
            )[k] < slots.len(),
        listeners_from(slots, channel, from).no_duplicates(),
        forall|a: int, b: int|
            0 <= a < b < listeners_from(slots, channel, from).len() ==> #[trigger] listeners_from(
                slots,
                channel,
                from,
            )[a] < #[trigger] listeners_from(slots, channel, from)[b],
    decreases slots.len() - from,
{
    if from < slots.len() {
        lemma_listeners_from(slots, channel, from + 1);
        let rest = listeners_from(slots, channel, from + 1);
        if hears(slots[from], channel) {
            let all = seq![from as usize] + rest;
            assert(listeners_from(slots, channel, from) == all);
            assert(all[0] == from as usize);
            assert forall|k: int| 0 < k < all.len() implies #[trigger] all[k] == rest[k - 1] by {}
            assert forall|i: int| 0 <= i < slots.len() implies (all.contains(i as usize) <==> (from
                <= i && hears(slots[i], channel))) by {
                if all.contains(i as usize) {
                    let k = choose|k: int| 0 <= k < all.len() && all[k] == i as usize;
                    if k > 0 {
                        assert(rest[k - 1] == i as usize);
                        assert(rest.contains(i as usize));
                    }
                }
                if i == from {
                    assert(all[0] == i as usize);
                } else if from < i && hears(slots[i], channel) {
                    assert(rest.contains(i as usize));
                    let k = choose|k: int| 0 <= k < rest.len() && rest[k] == i as usize;
                    assert(all[k + 1] == i as usize);
                }
            }
            assert forall|k: int| 0 <= k < all.len() implies from <= #[trigger] all[k]
                < slots.len() by {
                if k > 0 {
                    assert(all[k] == rest[k - 1]);
                }
            }
            assert forall|a: int, b: int| 0 <= a < b < all.len() implies all[a] < all[b] by {
                assert(all[b] == rest[b - 1]);
                if a > 0 {
                    assert(all[a] == rest[a - 1]);
                }
            }
            assert forall|a: int, b: int| 0 <= a < all.len() && 0 <= b < all.len() && a != b
                implies all[a] != all[b] by {
                if a > 0 && b > 0 {
                    assert(all[a] == rest[a - 1] && all[b] == rest[b - 1]);
                } else if a == 0 {
                    assert(all[b] == rest[b - 1]);
                } else {
                    assert(all[a] == rest[a - 1]);
                }
            }
        }
    } else {
        assert(listeners_from(slots, channel, from) =~= Seq::<usize>::empty());
    }
}

/// A MIDI note goes to exactly the enabled slots listening on its channel,
/// once each, in slot order, as a note event for that slot's engine; routing
/// (every slot's on/off state and channel) is unchanged.
pub proof fn lemma_midi_note_routing<N>(slots: Seq<SlotRouting>, event: MixerEvent<N>)
    requires
        event is MidiNoteOn || event is MidiNoteOff,
        slots.len() <= usize::MAX,
    ensures
        spec_route(slots, event).0 == slots,
        ({
            let (channel, control) = match event {
                MixerEvent::MidiNoteOn { channel, note, velocity } => (
                    channel,
                    ControlEvent::<N>::NoteOn { note, velocity },
                ),
                MixerEvent::MidiNoteOff { channel, note } => (channel, ControlEvent::NoteOff { note }),
                _ => (0u8, ControlEvent::NoteOff { note: 0 }),
            };
            let d = spec_route(slots, event).1;
            let l = listeners(slots, channel);
            &&& d.len() == l.len()
            &&& forall|k: int|
                0 <= k < d.len() ==> #[trigger] d[k] == (Delivery::Control { index: l[k], event: control })
            &&& forall|i: int|
                0 <= i < slots.len() ==> (l.contains(i as usize) <==> (slots[i].enabled
                    && slots[i].listen_channel == channel))
            &&& forall|a: int, b: int| 0 <= a < b < l.len() ==> #[trigger] l[a] < #[trigger] l[b]
        }),
{
    match event {
        MixerEvent::MidiNoteOn { channel, .. } => lemma_listeners_from(slots, channel, 0),
        MixerEvent::MidiNoteOff { channel, .. } => lemma_listeners_from(slots, channel, 0),
        _ => {},
    }
}

/// Slot commands act on their own slot only, and each changes only what it
/// names: `SetListenChannel` moves the listen channel (into 1..16, unchanged
/// when already in range) and never switches a slot on or off; `SetEnabled`
/// switches the slot and keeps its channel, silencing it when switched off;
/// param and volume events change no routing and go to that slot alone.
/// Events for an instance outside 1..4 do nothing.
pub proof fn lemma_slot_commands<N>(slots: Seq<SlotRouting>, instance: u8, e: InstanceEvent<N>)
    requires
        slots.len() == ENGINE_COUNT,
    ensures
        ({
            let (after, out) = spec_route(slots, MixerEvent::ToInstance { instance, event: e });
            let i = instance - 1;
            &&& after.len() == slots.len()
            &&& !(1 <= instance <= 4) ==> after == slots && out.len() == 0
            &&& forall|j: int| 0 <= j < slots.len() && j != i ==> #[trigger] after[j] == slots[j]
            &&& e matches InstanceEvent::SetListenChannel { channel } ==> !(1 <= instance <= 4) || {
                &&& forall|j: int| 0 <= j < slots.len() ==> #[trigger] after[j].enabled == slots[j].enabled
                &&& 1 <= after[i].listen_channel <= 16
                &&& (1 <= channel <= 16 ==> after[i].listen_channel == channel)
                &&& out.len() == 0
            }
            &&& e matches InstanceEvent::SetEnabled { on } ==> !(1 <= instance <= 4) || {
                &&& after[i].enabled == on
                &&& after[i].listen_channel == slots[i].listen_channel
                &&& out == (if on {
                    Seq::<Delivery<N>>::empty()
                } else {
                    seq![Delivery::Silence { index: i as usize }]
                })
            }
            &&& e matches InstanceEvent::Engine(c) ==> !(1 <= instance <= 4) || (after == slots
                && out == seq![Delivery::Control { index: i as usize, event: c }])
            &&& e matches InstanceEvent::SetVolume { amount } ==> !(1 <= instance <= 4) || (after
                == slots && out == seq![Delivery::<N>::Volume { index: i as usize, amount }])
        }),
{
}

} // verus!

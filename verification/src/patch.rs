//! The events that load a whole patch (params plus instance volume) onto one
//! mixer slot, as the `random` command and firmware presets send them.

use vstd::prelude::*;
use crate::events::{ControlEvent, EnvelopeId, InstanceEvent, LfoId, MixerEvent};
use crate::commands::routing_after;
use crate::mixer::SlotRouting;
use crate::params::{EngineParams, LfoParams, link_consistent, spec_apply, with_lfo};

verus! {

/// Slots enough for the volume, the oscillator mix, the envelopes, both
/// LFOs, and the envelope link.
pub const PATCH_EVENT_MAX: usize = 32;

/// Mixer events for one patch, in the order they must be applied: a
/// fixed buffer and the number of events in use, so that building a patch
/// allocates nothing.
pub struct PatchEvents<N> {
    events: [MixerEvent<N>; PATCH_EVENT_MAX],
    len: usize,
}

impl<N> View for PatchEvents<N> {
    type V = Seq<MixerEvent<N>>;

    closed spec fn view(&self) -> Seq<MixerEvent<N>> {
        self.events@.take(self.len as int)
    }
}

impl<N> PatchEvents<N> {
    #[verifier::type_invariant]
    spec fn len_fits(&self) -> bool {
        self.len <= PATCH_EVENT_MAX
    }

    /// The events, first to last.
    pub fn as_slice(&self) -> (r: &[MixerEvent<N>])
        ensures
            r@ == self@,
    {
        proof {
            use_type_invariant(self);
        }
        vstd::slice::slice_subrange(self.events.as_slice(), 0, self.len)
    }

    /// Number of events.
    pub fn len(&self) -> (r: usize)
        ensures
            r == self@.len(),
    {
        proof {
            use_type_invariant(self);
        }
        self.len
    }
}

impl<N: Copy> PatchEvents<N> {
    /// No events yet.
    fn new() -> (r: PatchEvents<N>)
        ensures
            r@ == Seq::<MixerEvent<N>>::empty(),
    {
        let filler = MixerEvent::MidiNoteOff { channel: 1, note: 0 };
        let r = PatchEvents { events: [filler; PATCH_EVENT_MAX], len: 0 };
        assert(r@ =~= Seq::<MixerEvent<N>>::empty());
        r
    }

    /// Appends one event.
    fn push(&mut self, event: MixerEvent<N>)
        requires
            old(self)@.len() < PATCH_EVENT_MAX,
        ensures
            final(self)@ == old(self)@.push(event),
    {
        proof {
            use_type_invariant(&*self);
        }
        let i = self.len;
        self.events[i] = event;
        self.len = i + 1;
        assert(self@ =~= old(self)@.push(event));
    }
}

/// A control event addressed to one slot's engine.
pub open spec fn spec_wrap<N>(instance: u8, event: ControlEvent<N>) -> MixerEvent<N> {
    MixerEvent::ToInstance { instance, event: InstanceEvent::Engine(event) }
}

/// Oscillator mix, filter, amp envelope, and assignable settings, in send order.
pub open spec fn mix_events<N>(p: EngineParams<N>) -> Seq<ControlEvent<N>> {
    Seq::empty()
        .push(ControlEvent::SetSawVol { amount: p.saw_vol })
        .push(ControlEvent::SetSquareVol { amount: p.square_vol })
        .push(ControlEvent::SetTriangleVol { amount: p.triangle_vol })
        .push(ControlEvent::SetSineVol { amount: p.sine_vol })
        .push(ControlEvent::SetPulse { width: p.pulse_width })
        .push(ControlEvent::SetSubVol { amount: p.sub_vol })
        .push(ControlEvent::SetSubOct { octaves: p.sub_octaves })
        .push(ControlEvent::SetCutoff { hz: p.cutoff_hz })
        .push(ControlEvent::SetResonance { amount: p.resonance })
        .push(ControlEvent::SetEnvelope { which: EnvelopeId::Amp, times: p.amp_env })
        .push(ControlEvent::SetFilterEnvAmount { amount: p.filter_env_amount })
        .push(ControlEvent::SetAssignableDest { dest: p.assignable_dest })
        .push(ControlEvent::SetAssignableAmount { amount: p.assignable_amount })
        .push(ControlEvent::SetEnvVel { amount: p.env_vel })
}

/// The five settings of one LFO, in send order.
pub open spec fn lfo_events<N>(which: LfoId, l: LfoParams<N>) -> Seq<ControlEvent<N>> {
    Seq::empty()
        .push(ControlEvent::SetLfoDest { which, dest: l.dest })
        .push(ControlEvent::SetLfoAmount { which, amount: l.amount })
        .push(ControlEvent::SetLfoRate { which, rate_hz: l.rate_hz })
        .push(ControlEvent::SetLfoWave { which, wave: l.wave })
        .push(ControlEvent::SetLfoRetrig { which, on: l.retrigger })
}

/// The link setting last: linked patches turn the link on (which copies the
/// amp times); unlinked ones turn it off, then send the other two envelopes.
pub open spec fn link_events<N>(p: EngineParams<N>) -> Seq<ControlEvent<N>> {
    if p.env_link {
        Seq::empty().push(ControlEvent::SetEnvLink { on: true })
    } else {
        Seq::empty()
            .push(ControlEvent::SetEnvLink { on: false })
            .push(ControlEvent::SetEnvelope { which: EnvelopeId::Filter, times: p.filter_env })
            .push(ControlEvent::SetEnvelope { which: EnvelopeId::Assignable, times: p.assignable_env })
    }
}

/// Engine events sent after the volume.
pub open spec fn tail_events<N>(p: EngineParams<N>) -> Seq<ControlEvent<N>> {
    lfo_events(LfoId::One, p.lfos[0]) + lfo_events(LfoId::Two, p.lfos[1]) + link_events(p)
}

/// The patch: the mix events, the slot volume, then the LFO and link events,
/// all addressed to `instance`.
pub open spec fn spec_patch_events<N>(instance: u8, p: EngineParams<N>, volume: N) -> Seq<
    MixerEvent<N>,
> {
    mix_events(p).map_values(|e: ControlEvent<N>| spec_wrap(instance, e)).push(
        MixerEvent::ToInstance { instance, event: InstanceEvent::SetVolume { amount: volume } },
    ) + tail_events(p).map_values(|e: ControlEvent<N>| spec_wrap(instance, e))
}

/// Every engine event of the patch, in the order the slot applies them.
pub open spec fn patch_engine_events<N>(p: EngineParams<N>) -> Seq<ControlEvent<N>> {
    mix_events(p) + tail_events(p)
}

/// Params after applying a run of control events in order.
pub open spec fn apply_all<N>(p: EngineParams<N>, events: Seq<ControlEvent<N>>, off: N, full: N) -> EngineParams<N>
    decreases events.len(),
{
    if events.len() == 0 {
        p
    } else {
        spec_apply(apply_all(p, events.drop_last(), off, full), events.last(), off, full)
    }
}

fn wrap<N>(instance: u8, event: ControlEvent<N>) -> (r: MixerEvent<N>)
    ensures
        r == spec_wrap(instance, event),
{
    MixerEvent::ToInstance { instance, event: InstanceEvent::Engine(event) }
}

fn push_lfo<N: Copy>(out: &mut PatchEvents<N>, instance: u8, which: LfoId, l: LfoParams<N>)
    requires
        old(out)@.len() + 5 <= PATCH_EVENT_MAX,
    ensures
        final(out)@ == old(out)@ + lfo_events(which, l).map_values(
            |e: ControlEvent<N>| spec_wrap(instance, e),
        ),
{
    out.push(wrap(instance, ControlEvent::SetLfoDest { which, dest: l.dest }));
    out.push(wrap(instance, ControlEvent::SetLfoAmount { which, amount: l.amount }));
    out.push(wrap(instance, ControlEvent::SetLfoRate { which, rate_hz: l.rate_hz }));
    out.push(wrap(instance, ControlEvent::SetLfoWave { which, wave: l.wave }));
    out.push(wrap(instance, ControlEvent::SetLfoRetrig { which, on: l.retrigger }));
    assert(final(out)@ =~= old(out)@ + lfo_events(which, l).map_values(
        |e: ControlEvent<N>| spec_wrap(instance, e),
    ));
}

/// Mixer events that load `params` and `volume` onto the 1-based slot
/// `instance`: the oscillator mix, filter, amp envelope, and assignable
/// settings; the slot volume; both LFOs; then the envelope link, and for an
/// unlinked patch the filter and assignable envelopes. Nothing else is sent:
/// the slot's on/off state and listen channel stay as they are.
pub fn patch_events<N: Copy>(instance: u8, params: &EngineParams<N>, volume: N) -> (r: PatchEvents<N>)
    ensures
        r@ == spec_patch_events(instance, *params, volume),
        r@.len() <= PATCH_EVENT_MAX,
{
    let p = params;
    let mut events: PatchEvents<N> = PatchEvents::new();
    events.push(wrap(instance, ControlEvent::SetSawVol { amount: p.saw_vol }));
    events.push(wrap(instance, ControlEvent::SetSquareVol { amount: p.square_vol }));
    events.push(wrap(instance, ControlEvent::SetTriangleVol { amount: p.triangle_vol }));
    events.push(wrap(instance, ControlEvent::SetSineVol { amount: p.sine_vol }));
    events.push(wrap(instance, ControlEvent::SetPulse { width: p.pulse_width }));
    events.push(wrap(instance, ControlEvent::SetSubVol { amount: p.sub_vol }));
    events.push(wrap(instance, ControlEvent::SetSubOct { octaves: p.sub_octaves }));
    events.push(wrap(instance, ControlEvent::SetCutoff { hz: p.cutoff_hz }));
    events.push(wrap(instance, ControlEvent::SetResonance { amount: p.resonance }));
    events.push(
        wrap(instance, ControlEvent::SetEnvelope { which: EnvelopeId::Amp, times: p.amp_env }),
    );
    events.push(wrap(instance, ControlEvent::SetFilterEnvAmount { amount: p.filter_env_amount }));
    events.push(wrap(instance, ControlEvent::SetAssignableDest { dest: p.assignable_dest }));
    events.push(wrap(instance, ControlEvent::SetAssignableAmount { amount: p.assignable_amount }));
    events.push(wrap(instance, ControlEvent::SetEnvVel { amount: p.env_vel }));
    let ghost head = events@;
    assert(head =~= mix_events(*p).map_values(|e: ControlEvent<N>| spec_wrap(instance, e)));
    events.push(
        MixerEvent::ToInstance { instance, event: InstanceEvent::SetVolume { amount: volume } },
    );
    let ghost with_volume = events@;
    push_lfo(&mut events, instance, LfoId::One, p.lfos[0]);
    push_lfo(&mut events, instance, LfoId::Two, p.lfos[1]);
    let ghost with_lfos = events@;
    if p.env_link {
        events.push(wrap(instance, ControlEvent::SetEnvLink { on: true }));
    } else {
        events.push(wrap(instance, ControlEvent::SetEnvLink { on: false }));
        events.push(
            wrap(
                instance,
                ControlEvent::SetEnvelope { which: EnvelopeId::Filter, times: p.filter_env },
            ),
        );
        events.push(
            wrap(
                instance,
                ControlEvent::SetEnvelope { which: EnvelopeId::Assignable, times: p.assignable_env },
            ),
        );
    }
    assert(events@ =~= with_lfos + link_events(*p).map_values(
        |e: ControlEvent<N>| spec_wrap(instance, e),
    ));
    assert(events@ =~= spec_patch_events(instance, *p, volume));
    events
}


/// Applying one more event after a run is applying it to the run's result.
pub broadcast proof fn lemma_apply_all_push<N>(
    p: EngineParams<N>,
    events: Seq<ControlEvent<N>>,
    e: ControlEvent<N>,
    off: N,
    full: N,
)
    ensures
        #[trigger] apply_all(p, events.push(e), off, full) == spec_apply(
            apply_all(p, events, off, full),
            e,
            off,
            full,
        ),
{
    assert(events.push(e).drop_last() =~= events);
}

/// Applying two runs back to back is applying their concatenation.
pub proof fn lemma_apply_all_concat<N>(
    p: EngineParams<N>,
    a: Seq<ControlEvent<N>>,
    b: Seq<ControlEvent<N>>,
    off: N,
    full: N,
)
    ensures
        apply_all(p, a + b, off, full) == apply_all(apply_all(p, a, off, full), b, off, full),
    decreases b.len(),
{
    if b.len() == 0 {
        assert(a + b =~= a);
    } else {
        lemma_apply_all_concat(p, a, b.drop_last(), off, full);
        assert((a + b).drop_last() =~= a + b.drop_last());
    }
}

/// The slot's params once the mix events of `p` have been applied to `q`.
pub open spec fn after_mix<N>(q: EngineParams<N>, p: EngineParams<N>) -> EngineParams<N> {
    EngineParams {
        saw_vol: p.saw_vol,
        square_vol: p.square_vol,
        triangle_vol: p.triangle_vol,
        sine_vol: p.sine_vol,
        pulse_width: p.pulse_width,
        cutoff_hz: p.cutoff_hz,
        resonance: p.resonance,
        amp_env: p.amp_env,
        filter_env: if q.env_link { p.amp_env } else { q.filter_env },
        assignable_env: if q.env_link { p.amp_env } else { q.assignable_env },
        filter_env_amount: p.filter_env_amount,
        assignable_amount: p.assignable_amount,
        assignable_dest: p.assignable_dest,
        env_link: q.env_link,
        env_vel: p.env_vel,
        sub_vol: p.sub_vol,
        sub_octaves: p.sub_octaves,
        lfos: q.lfos,
    }
}

proof fn lemma_mix_events<N>(q: EngineParams<N>, p: EngineParams<N>, off: N, full: N)
    ensures
        apply_all(q, mix_events(p), off, full) == after_mix(q, p),
{
    broadcast use lemma_apply_all_push;

    assert(apply_all(q, mix_events(p), off, full) =~= after_mix(q, p));
}

proof fn lemma_lfo_events<N>(r: EngineParams<N>, which: LfoId, l: LfoParams<N>, off: N, full: N)
    ensures
        apply_all(r, lfo_events(which, l), off, full) == with_lfo(r, which, l),
{
    broadcast use lemma_apply_all_push;

    let i = which.spec_index() as int;
    let out = apply_all(r, lfo_events(which, l), off, full);
    assert(out.lfos@ =~= r.lfos@.update(i, l));
    assert(out.lfos =~= with_lfo(r, which, l).lfos);
}

proof fn lemma_link_events<N>(r: EngineParams<N>, p: EngineParams<N>, off: N, full: N)
    requires
        link_consistent(p),
        r.amp_env == p.amp_env,
    ensures
        apply_all(r, link_events(p), off, full) == (EngineParams {
            filter_env: p.filter_env,
            assignable_env: p.assignable_env,
            env_link: p.env_link,
            ..r
        }),
{
    broadcast use lemma_apply_all_push;

}

/// A patch loads its params: whatever params the slot held before, applying
/// the patch's engine events in order leaves exactly `p`, for any patch whose
/// linked envelopes agree (as every reachable params value's do).
pub proof fn lemma_patch_loads_params<N>(q: EngineParams<N>, p: EngineParams<N>, off: N, full: N)
    requires
        link_consistent(p),
    ensures
        apply_all(q, patch_engine_events(p), off, full) == p,
{
    let lfo1 = lfo_events(LfoId::One, p.lfos[0]);
    let lfo2 = lfo_events(LfoId::Two, p.lfos[1]);
    let r1 = apply_all(q, mix_events(p), off, full);
    let r2 = apply_all(r1, lfo1, off, full);
    let r3 = apply_all(r2, lfo2, off, full);
    assert(patch_engine_events(p) =~= mix_events(p) + (lfo1 + (lfo2 + link_events(p))));
    lemma_apply_all_concat(q, mix_events(p), lfo1 + (lfo2 + link_events(p)), off, full);
    lemma_apply_all_concat(r1, lfo1, lfo2 + link_events(p), off, full);
    lemma_apply_all_concat(r2, lfo2, link_events(p), off, full);
    lemma_mix_events(q, p, off, full);
    lemma_lfo_events(r1, LfoId::One, p.lfos[0], off, full);
    lemma_lfo_events(r2, LfoId::Two, p.lfos[1], off, full);
    lemma_link_events(r3, p, off, full);
    assert(r3.lfos@ =~= p.lfos@);
    assert(r3.lfos =~= p.lfos);
}

/// A patch addresses every event to its slot: the volume comes fifteenth,
/// and the others are the patch's engine events in order. A linked patch
/// has 26 events, an unlinked one 28, never more than the buffer holds.
pub proof fn lemma_patch_shape<N>(instance: u8, p: EngineParams<N>, volume: N)
    ensures
        spec_patch_events(instance, p, volume).len() == patch_engine_events(p).len() + 1,
        spec_patch_events(instance, p, volume).len() == (if p.env_link { 26int } else { 28int }),
        spec_patch_events(instance, p, volume)[14] == (MixerEvent::ToInstance {
            instance,
            event: InstanceEvent::SetVolume { amount: volume },
        }),
        forall|i: int|
            0 <= i < 14 ==> #[trigger] spec_patch_events(instance, p, volume)[i] == spec_wrap(
                instance,
                patch_engine_events(p)[i],
            ),
        forall|i: int|
            15 <= i < spec_patch_events(instance, p, volume).len() ==> #[trigger] spec_patch_events(
                instance,
                p,
                volume,
            )[i] == spec_wrap(instance, patch_engine_events(p)[i - 1]),
{
}

/// Whether an event sets the times of the filter or assignable envelope.
pub open spec fn sets_extra_envelope<N>(e: ControlEvent<N>) -> bool {
    e matches ControlEvent::SetEnvelope { which, .. } && which != EnvelopeId::Amp
}

/// Whether an event sets the amp envelope times.
pub open spec fn sets_amp_envelope<N>(e: ControlEvent<N>) -> bool {
    e matches ControlEvent::SetEnvelope { which, .. } && which == EnvelopeId::Amp
}

/// A patch states the envelope link exactly once (its twenty-fifth engine
/// event), and sends the filter and assignable times, after it, only when it
/// is unlinked; the amp times always go out, tenth. The four oscillator
/// levels lead the patch.
pub proof fn lemma_patch_link_settings<N>(p: EngineParams<N>)
    ensures
        forall|i: int|
            0 <= i < patch_engine_events(p).len() ==> ((#[trigger] patch_engine_events(p)[i] is SetEnvLink)
                <==> i == 24),
        forall|i: int|
            0 <= i < patch_engine_events(p).len() ==> (sets_extra_envelope(
                #[trigger] patch_engine_events(p)[i],
            ) <==> (!p.env_link && (i == 25 || i == 26))),
        forall|i: int|
            0 <= i < patch_engine_events(p).len() ==> (sets_amp_envelope(
                #[trigger] patch_engine_events(p)[i],
            ) <==> i == 9),
        patch_engine_events(p)[0] == (ControlEvent::SetSawVol { amount: p.saw_vol }),
        patch_engine_events(p)[1] == (ControlEvent::SetSquareVol { amount: p.square_vol }),
        patch_engine_events(p)[2] == (ControlEvent::SetTriangleVol { amount: p.triangle_vol }),
        patch_engine_events(p)[3] == (ControlEvent::SetSineVol { amount: p.sine_vol }),
{
    let e = patch_engine_events(p);
    assert forall|i: int| 0 <= i < e.len() implies {
        &&& (#[trigger] e[i] is SetEnvLink) <==> i == 24
        &&& sets_extra_envelope(e[i]) <==> (!p.env_link && (i == 25 || i == 26))
        &&& sets_amp_envelope(e[i]) <==> i == 9
    } by {
        if i < 14 {
            assert(e[i] == mix_events(p)[i]);
        } else {
            assert(e[i] == tail_events(p)[i - 14]);
        }
    }
}

/// Whether an event leaves routing alone: a param change or volume for a slot.
pub open spec fn keeps_routing<N>(e: MixerEvent<N>) -> bool {
    e matches MixerEvent::ToInstance { event, .. } && (event is Engine || event is SetVolume)
}

proof fn lemma_routing_unchanged<N>(slots: Seq<SlotRouting>, events: Seq<MixerEvent<N>>)
    requires
        forall|i: int| 0 <= i < events.len() ==> keeps_routing(#[trigger] events[i]),
    ensures
        routing_after(slots, events) == slots,
    decreases events.len(),
{
    if events.len() > 0 {
        assert(keeps_routing(events[0]));
        assert forall|i: int| 0 <= i < events.drop_first().len() implies keeps_routing(
            #[trigger] events.drop_first()[i],
        ) by {
            assert(events.drop_first()[i] == events[i + 1]);
        }
        lemma_routing_unchanged(slots, events.drop_first());
    }
}

/// Loading a patch never changes routing: every slot keeps its on/off
/// state and listen channel, whatever the patch and volume.
pub proof fn lemma_patch_keeps_routing<N>(
    slots: Seq<SlotRouting>,
    instance: u8,
    p: EngineParams<N>,
    volume: N,
)
    ensures
        routing_after(slots, spec_patch_events(instance, p, volume)) == slots,
{
    let events = spec_patch_events(instance, p, volume);
    lemma_patch_shape(instance, p, volume);
    assert forall|i: int| 0 <= i < events.len() implies keeps_routing(#[trigger] events[i]) by {
        if i != 14 {
            if i < 14 {
                assert(events[i] == spec_wrap(instance, patch_engine_events(p)[i]));
            } else {
                assert(events[i] == spec_wrap(instance, patch_engine_events(p)[i - 1]));
            }
        }
    }
    lemma_routing_unchanged(slots, events);
}

} // verus!

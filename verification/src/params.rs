//! Shared subtractive parameters of one engine instance, generic over the
//! number type, with the envelope copy and link rules and the
//! classification of which param events must reach the sounding voices.
//!
//! Envelope link: when on, amp envelope time commands also write the filter
//! and assignable envelopes; a filter or assignable time command turns the
//! link off. `envcopy` snapshots the amp times onto the other two, and
//! turning the link on does the same.

use vstd::prelude::*;
use vstd::array::spec_array_update;
use crate::events::{
    AdsrTimes, AssignableDest, ControlEvent, EnvelopeField, EnvelopeId, LfoId, LfoWave,
    SubOctaves, Waveform,
};

verus! {

/// Shared settings for one assignable LFO; every voice of the engine uses them.
#[derive(Debug, Clone, Copy, PartialEq)]
pub struct LfoParams<N> {
    pub dest: AssignableDest,
    pub amount: N,
    pub rate_hz: N,
    pub wave: LfoWave,
    pub retrigger: bool,
}

/// Shared subtractive params for one engine instance.
#[derive(Debug, Clone, Copy, PartialEq)]
pub struct EngineParams<N> {
    pub saw_vol: N,
    pub square_vol: N,
    pub triangle_vol: N,
    pub sine_vol: N,
    pub pulse_width: N,
    pub cutoff_hz: N,
    pub resonance: N,
    pub amp_env: AdsrTimes<N>,
    pub filter_env: AdsrTimes<N>,
    pub assignable_env: AdsrTimes<N>,
    pub filter_env_amount: N,
    pub assignable_amount: N,
    pub assignable_dest: AssignableDest,
    pub env_link: bool,
    pub env_vel: N,
    pub sub_vol: N,
    pub sub_octaves: SubOctaves,
    pub lfos: [LfoParams<N>; 2],
}

/// Live voice updates required after applying a parameter event.
#[derive(Debug, Clone, Copy, PartialEq, Eq, Structural)]
pub struct ParamEffects {
    /// Copy the stored pulse width to square oscillators on existing voices.
    pub synchronize_pulse_width: bool,
    /// Copy the stored ADSR settings to existing voices.
    pub synchronize_envelopes: bool,
}

pub open spec fn spec_param_effects<N>(event: ControlEvent<N>) -> Option<ParamEffects> {
    match event {
        ControlEvent::NoteOn { .. } | ControlEvent::NoteOff { .. } => None,
        ControlEvent::SetPulse { .. } => Some(
            ParamEffects { synchronize_pulse_width: true, synchronize_envelopes: false },
        ),
        ControlEvent::SetEnvelope { .. } | ControlEvent::PatchEnvelope { .. }
        | ControlEvent::EnvCopy => Some(
            ParamEffects { synchronize_pulse_width: false, synchronize_envelopes: true },
        ),
        ControlEvent::SetEnvLink { on } => Some(
            ParamEffects { synchronize_pulse_width: false, synchronize_envelopes: on },
        ),
        _ => Some(ParamEffects { synchronize_pulse_width: false, synchronize_envelopes: false }),
    }
}

/// What applying `event` to the params requires of live voices. Note events
/// change no shared params (`None`). Pulse width must reach square
/// oscillators; envelope times, copies, and turning the link on must reach
/// voice envelopes; every other param is read by voices as they render.
pub fn param_effects<N>(event: &ControlEvent<N>) -> (r: Option<ParamEffects>)
    ensures
        r == spec_param_effects(*event),
{
    match event {
        ControlEvent::NoteOn { .. } | ControlEvent::NoteOff { .. } => None,
        ControlEvent::SetPulse { .. } => Some(
            ParamEffects { synchronize_pulse_width: true, synchronize_envelopes: false },
        ),
        ControlEvent::SetEnvelope { .. } | ControlEvent::PatchEnvelope { .. }
        | ControlEvent::EnvCopy => Some(
            ParamEffects { synchronize_pulse_width: false, synchronize_envelopes: true },
        ),
        ControlEvent::SetEnvLink { on } => Some(
            ParamEffects { synchronize_pulse_width: false, synchronize_envelopes: *on },
        ),
        _ => Some(ParamEffects { synchronize_pulse_width: false, synchronize_envelopes: false }),
    }
}

pub open spec fn spec_envelope<N>(p: EngineParams<N>, which: EnvelopeId) -> AdsrTimes<N> {
    match which {
        EnvelopeId::Amp => p.amp_env,
        EnvelopeId::Filter => p.filter_env,
        EnvelopeId::Assignable => p.assignable_env,
    }
}

/// Envelope times with one field replaced.
pub open spec fn with_field<N>(t: AdsrTimes<N>, field: EnvelopeField, value: N) -> AdsrTimes<N> {
    match field {
        EnvelopeField::Attack => AdsrTimes { attack_ms: value, ..t },
        EnvelopeField::Decay => AdsrTimes { decay_ms: value, ..t },
        EnvelopeField::Sustain => AdsrTimes { sustain: value, ..t },
        EnvelopeField::Release => AdsrTimes { release_ms: value, ..t },
    }
}

/// Params after storing envelope times, with the link rule.
pub open spec fn spec_set_envelope<N>(
    p: EngineParams<N>,
    which: EnvelopeId,
    times: AdsrTimes<N>,
) -> EngineParams<N> {
    match which {
        EnvelopeId::Amp => if p.env_link {
            EngineParams { amp_env: times, filter_env: times, assignable_env: times, ..p }
        } else {
            EngineParams { amp_env: times, ..p }
        },
        EnvelopeId::Filter => EngineParams { filter_env: times, env_link: false, ..p },
        EnvelopeId::Assignable => EngineParams { assignable_env: times, env_link: false, ..p },
    }
}

/// Params after copying the amp times onto the filter and assignable envelopes.
pub open spec fn spec_copy_amp<N>(p: EngineParams<N>) -> EngineParams<N> {
    EngineParams { filter_env: p.amp_env, assignable_env: p.amp_env, ..p }
}

/// Params after setting the envelope link.
pub open spec fn spec_set_env_link<N>(p: EngineParams<N>, on: bool) -> EngineParams<N> {
    if on {
        spec_copy_amp(EngineParams { env_link: true, ..p })
    } else {
        EngineParams { env_link: false, ..p }
    }
}

/// Params after one LFO setting that is not a number.
pub open spec fn with_lfo<N>(p: EngineParams<N>, which: LfoId, l: LfoParams<N>) -> EngineParams<
    N,
> {
    EngineParams { lfos: spec_array_update(p.lfos, which.spec_index() as int, l), ..p }
}

/// Oscillator mix after a waveform preset: every level, the sub's included,
/// goes to `off` and the chosen oscillator to `full`.
pub open spec fn spec_wave_mix<N>(p: EngineParams<N>, waveform: Waveform, off: N, full: N) -> EngineParams<N> {
    let silent = EngineParams {
        saw_vol: off,
        square_vol: off,
        triangle_vol: off,
        sine_vol: off,
        sub_vol: off,
        ..p
    };
    match waveform {
        Waveform::Saw => EngineParams { saw_vol: full, ..silent },
        Waveform::Square => EngineParams { square_vol: full, ..silent },
        Waveform::Triangle => EngineParams { triangle_vol: full, ..silent },
        Waveform::Sine => EngineParams { sine_vol: full, ..silent },
    }
}

/// Params after one control event, its numbers stored as given. A
/// waveform preset writes `off` and `full` as oscillator levels.
pub open spec fn spec_apply<N>(p: EngineParams<N>, event: ControlEvent<N>, off: N, full: N) -> EngineParams<N> {
    match event {
        ControlEvent::NoteOn { .. } | ControlEvent::NoteOff { .. } => p,
        ControlEvent::SetCutoff { hz } => EngineParams { cutoff_hz: hz, ..p },
        ControlEvent::SetResonance { amount } => EngineParams { resonance: amount, ..p },
        ControlEvent::SetWave { waveform } => spec_wave_mix(p, waveform, off, full),
        ControlEvent::SetSawVol { amount } => EngineParams { saw_vol: amount, ..p },
        ControlEvent::SetSquareVol { amount } => EngineParams { square_vol: amount, ..p },
        ControlEvent::SetTriangleVol { amount } => EngineParams { triangle_vol: amount, ..p },
        ControlEvent::SetSineVol { amount } => EngineParams { sine_vol: amount, ..p },
        ControlEvent::SetPulse { width } => EngineParams { pulse_width: width, ..p },
        ControlEvent::SetEnvelope { which, times } => spec_set_envelope(p, which, times),
        ControlEvent::PatchEnvelope { which, field, value } => spec_set_envelope(
            p,
            which,
            with_field(spec_envelope(p, which), field, value),
        ),
        ControlEvent::SetFilterEnvAmount { amount } => EngineParams { filter_env_amount: amount, ..p },
        ControlEvent::SetAssignableDest { dest } => EngineParams { assignable_dest: dest, ..p },
        ControlEvent::SetAssignableAmount { amount } => EngineParams { assignable_amount: amount, ..p },
        ControlEvent::SetLfoDest { which, dest } => with_lfo(
            p,
            which,
            LfoParams { dest, ..p.lfos[which.spec_index() as int] },
        ),
        ControlEvent::SetLfoAmount { which, amount } => with_lfo(
            p,
            which,
            LfoParams { amount, ..p.lfos[which.spec_index() as int] },
        ),
        ControlEvent::SetLfoRate { which, rate_hz } => with_lfo(
            p,
            which,
            LfoParams { rate_hz, ..p.lfos[which.spec_index() as int] },
        ),
        ControlEvent::SetLfoWave { which, wave } => with_lfo(
            p,
            which,
            LfoParams { wave, ..p.lfos[which.spec_index() as int] },
        ),
        ControlEvent::SetLfoRetrig { which, on } => with_lfo(
            p,
            which,
            LfoParams { retrigger: on, ..p.lfos[which.spec_index() as int] },
        ),
        ControlEvent::EnvCopy => spec_copy_amp(p),
        ControlEvent::SetEnvLink { on } => spec_set_env_link(p, on),
        ControlEvent::SetEnvVel { amount } => EngineParams { env_vel: amount, ..p },
        ControlEvent::SetSubVol { amount } => EngineParams { sub_vol: amount, ..p },
        ControlEvent::SetSubOct { octaves } => EngineParams { sub_octaves: octaves, ..p },
    }
}

/// Linked envelopes agree: while the link is on, the filter and assignable
/// envelopes hold the amp times.
pub open spec fn link_consistent<N>(p: EngineParams<N>) -> bool {
    p.env_link ==> p.filter_env == p.amp_env && p.assignable_env == p.amp_env
}

impl<N: Copy> EngineParams<N> {
    /// Times of one of the three envelopes.
    pub fn envelope(&self, which: EnvelopeId) -> (r: AdsrTimes<N>)
        ensures
            r == spec_envelope(*self, which),
    {
        match which {
            EnvelopeId::Amp => self.amp_env,
            EnvelopeId::Filter => self.filter_env,
            EnvelopeId::Assignable => self.assignable_env,
        }
    }

    /// Stores envelope times as given (hosts clamp times to `>= 0` and
    /// sustain to `0..=1` first). Amp times also go to the other two
    /// envelopes while linked; filter or assignable times unlink.
    pub fn set_envelope(&mut self, which: EnvelopeId, times: AdsrTimes<N>)
        ensures
            *final(self) == spec_set_envelope(*old(self), which, times),
    {
        match which {
            EnvelopeId::Amp => {
                self.amp_env = times;
                if self.env_link {
                    self.filter_env = times;
                    self.assignable_env = times;
                }
            },
            EnvelopeId::Filter => {
                self.unlink_if_needed();
                self.filter_env = times;
            },
            EnvelopeId::Assignable => {
                self.unlink_if_needed();
                self.assignable_env = times;
            },
        }
    }

    /// Replaces one field of one envelope (a single-field time command).
    /// The value is stored as given; hosts clamp it first.
    pub fn patch_envelope(&mut self, which: EnvelopeId, field: EnvelopeField, value: N)
        ensures
            *final(self) == spec_set_envelope(
                *old(self),
                which,
                with_field(spec_envelope(*old(self), which), field, value),
            ),
    {
        let mut times = self.envelope(which);
        match field {
            EnvelopeField::Attack => times.attack_ms = value,
            EnvelopeField::Decay => times.decay_ms = value,
            EnvelopeField::Sustain => times.sustain = value,
            EnvelopeField::Release => times.release_ms = value,
        }
        self.set_envelope(which, times);
    }

    /// Turns the envelope link off.
    pub fn unlink_if_needed(&mut self)
        ensures
            *final(self) == (EngineParams { env_link: false, ..*old(self) }),
    {
        if self.env_link {
            self.env_link = false;
        }
    }

    /// `envcopy`: filter and assignable envelopes take the amp times.
    pub fn copy_amp_times_to_extra_envelopes(&mut self)
        ensures
            *final(self) == spec_copy_amp(*old(self)),
    {
        self.filter_env = self.amp_env;
        self.assignable_env = self.amp_env;
    }

    /// `envlink on|off`: turning it on also copies the amp times.
    pub fn set_env_link(&mut self, on: bool)
        ensures
            *final(self) == spec_set_env_link(*old(self), on),
    {
        self.env_link = on;
        if on {
            self.copy_amp_times_to_extra_envelopes();
        }
    }

    /// Routes an LFO setting to the LFO it names.
    pub fn lfo(&self, which: LfoId) -> (r: LfoParams<N>)
        ensures
            r == self.lfos@[which.spec_index() as int],
    {
        self.lfos[which.index()]
    }

    /// Stores the settings of one LFO.
    pub fn set_lfo(&mut self, which: LfoId, l: LfoParams<N>)
        ensures
            *final(self) == with_lfo(*old(self), which, l),
    {
        let i = which.index();
        self.lfos[i] = l;
    }

    /// Updates params from one control event and reports which live voice
    /// state must follow. Numbers are stored as given: hosts clamp them to
    /// their ranges first. A waveform preset writes `off` to every oscillator
    /// level and the sub level, then `full` to the chosen oscillator. Note
    /// events change nothing and report `None`.
    pub fn apply(&mut self, event: ControlEvent<N>, off: N, full: N) -> (r: Option<ParamEffects>)
        ensures
            *final(self) == spec_apply(*old(self), event, off, full),
            r == spec_param_effects(event),
    {
        let effects = param_effects(&event);
        match event {
            ControlEvent::NoteOn { .. } | ControlEvent::NoteOff { .. } => {},
            ControlEvent::SetCutoff { hz } => self.cutoff_hz = hz,
            ControlEvent::SetResonance { amount } => self.resonance = amount,
            ControlEvent::SetWave { waveform } => {
                self.saw_vol = off;
                self.square_vol = off;
                self.triangle_vol = off;
                self.sine_vol = off;
                self.sub_vol = off;
                match waveform {
                    Waveform::Saw => self.saw_vol = full,
                    Waveform::Square => self.square_vol = full,
                    Waveform::Triangle => self.triangle_vol = full,
                    Waveform::Sine => self.sine_vol = full,
                }
            },
            ControlEvent::SetSawVol { amount } => self.saw_vol = amount,
            ControlEvent::SetSquareVol { amount } => self.square_vol = amount,
            ControlEvent::SetTriangleVol { amount } => self.triangle_vol = amount,
            ControlEvent::SetSineVol { amount } => self.sine_vol = amount,
            ControlEvent::SetPulse { width } => self.pulse_width = width,
            ControlEvent::SetEnvelope { which, times } => self.set_envelope(which, times),
            ControlEvent::PatchEnvelope { which, field, value } => {
                self.patch_envelope(which, field, value)
            },
            ControlEvent::SetFilterEnvAmount { amount } => self.filter_env_amount = amount,
            ControlEvent::SetAssignableDest { dest } => self.assignable_dest = dest,
            ControlEvent::SetAssignableAmount { amount } => self.assignable_amount = amount,
            ControlEvent::SetLfoDest { which, dest } => {
                let mut l = self.lfo(which);
                l.dest = dest;
                self.set_lfo(which, l);
            },
            ControlEvent::SetLfoAmount { which, amount } => {
                let mut l = self.lfo(which);
                l.amount = amount;
                self.set_lfo(which, l);
            },
            ControlEvent::SetLfoRate { which, rate_hz } => {
                let mut l = self.lfo(which);
                l.rate_hz = rate_hz;
                self.set_lfo(which, l);
            },
            ControlEvent::SetLfoWave { which, wave } => {
                let mut l = self.lfo(which);
                l.wave = wave;
                self.set_lfo(which, l);
            },
            ControlEvent::SetLfoRetrig { which, on } => {
                let mut l = self.lfo(which);
                l.retrigger = on;
                self.set_lfo(which, l);
            },
            ControlEvent::EnvCopy => self.copy_amp_times_to_extra_envelopes(),
            ControlEvent::SetEnvLink { on } => self.set_env_link(on),
            ControlEvent::SetEnvVel { amount } => self.env_vel = amount,
            ControlEvent::SetSubVol { amount } => self.sub_vol = amount,
            ControlEvent::SetSubOct { octaves } => self.sub_octaves = octaves,
        }
        effects
    }
}

/// While linked, an amp time command sets all three envelopes to the same
/// times, and the link stays on.
pub proof fn lemma_link_follows_amp<N>(p: EngineParams<N>, times: AdsrTimes<N>)
    requires
        p.env_link,
    ensures
        spec_set_envelope(p, EnvelopeId::Amp, times).amp_env == times,
        spec_set_envelope(p, EnvelopeId::Amp, times).filter_env == times,
        spec_set_envelope(p, EnvelopeId::Amp, times).assignable_env == times,
        spec_set_envelope(p, EnvelopeId::Amp, times).env_link,
{
}

/// A filter or assignable time command unlinks, changes only its own
/// envelope, and leaves the amp times as they were.
pub proof fn lemma_extra_times_unlink<N>(p: EngineParams<N>, which: EnvelopeId, times: AdsrTimes<N>)
    requires
        which != EnvelopeId::Amp,
    ensures
        !spec_set_envelope(p, which, times).env_link,
        spec_envelope(spec_set_envelope(p, which, times), which) == times,
        spec_set_envelope(p, which, times).amp_env == p.amp_env,
        which == EnvelopeId::Filter ==> spec_set_envelope(p, which, times).assignable_env
            == p.assignable_env,
        which == EnvelopeId::Assignable ==> spec_set_envelope(p, which, times).filter_env
            == p.filter_env,
{
}

/// Turning the link on snaps both extra envelopes to the amp times; a later
/// amp command moves all three together. Unlinked, an amp command leaves the
/// other two alone.
pub proof fn lemma_link_on_then_amp<N>(p: EngineParams<N>, times: AdsrTimes<N>)
    ensures
        spec_set_env_link(p, true).filter_env == p.amp_env,
        spec_set_env_link(p, true).assignable_env == p.amp_env,
        spec_set_envelope(spec_set_env_link(p, true), EnvelopeId::Amp, times).filter_env == times,
        spec_set_envelope(spec_set_env_link(p, true), EnvelopeId::Amp, times).assignable_env
            == times,
        spec_set_envelope(spec_set_env_link(p, false), EnvelopeId::Amp, times).filter_env
            == p.filter_env,
        spec_set_envelope(spec_set_env_link(p, false), EnvelopeId::Amp, times).assignable_env
            == p.assignable_env,
{
}


/// Every control event keeps linked envelopes in agreement: if the filter
/// and assignable envelopes hold the amp times whenever the link is on
/// before an event, they do after it too.
pub proof fn lemma_apply_keeps_link_consistent<N>(
    p: EngineParams<N>,
    event: ControlEvent<N>,
    off: N,
    full: N,
)
    requires
        link_consistent(p),
    ensures
        link_consistent(spec_apply(p, event, off, full)),
{
}

/// Level of the at-pitch oscillator that a waveform names.
pub open spec fn osc_level<N>(p: EngineParams<N>, w: Waveform) -> N {
    match w {
        Waveform::Saw => p.saw_vol,
        Waveform::Square => p.square_vol,
        Waveform::Triangle => p.triangle_vol,
        Waveform::Sine => p.sine_vol,
    }
}

/// A waveform preset solos the oscillator it names: that level becomes
/// `full`, the other three at-pitch levels and the sub level become `off`,
/// and nothing else changes.
pub proof fn lemma_wave_preset_solos<N>(p: EngineParams<N>, w: Waveform, off: N, full: N)
    ensures
        forall|v: Waveform|
            #[trigger] osc_level(spec_apply(p, ControlEvent::SetWave { waveform: w }, off, full), v)
                == (if v == w {
                full
            } else {
                off
            }),
        spec_apply(p, ControlEvent::SetWave { waveform: w }, off, full).sub_vol == off,
        ({
            let r = spec_apply(p, ControlEvent::SetWave { waveform: w }, off, full);
            r == EngineParams {
                saw_vol: r.saw_vol,
                square_vol: r.square_vol,
                triangle_vol: r.triangle_vol,
                sine_vol: r.sine_vol,
                sub_vol: r.sub_vol,
                ..p
            }
        }),
{
}

/// The level event of the oscillator a waveform names.
pub open spec fn level_event<N>(w: Waveform, amount: N) -> ControlEvent<N> {
    match w {
        Waveform::Saw => ControlEvent::SetSawVol { amount },
        Waveform::Square => ControlEvent::SetSquareVol { amount },
        Waveform::Triangle => ControlEvent::SetTriangleVol { amount },
        Waveform::Sine => ControlEvent::SetSineVol { amount },
    }
}

/// Each oscillator level command sets its own oscillator's level and leaves
/// the other levels, the sub, and every other param as they were.
pub proof fn lemma_level_commands<N>(p: EngineParams<N>, w: Waveform, amount: N, off: N, full: N)
    ensures
        forall|v: Waveform|
            #[trigger] osc_level(spec_apply(p, level_event(w, amount), off, full), v) == (if v == w {
                amount
            } else {
                osc_level(p, v)
            }),
        ({
            let r = spec_apply(p, level_event(w, amount), off, full);
            r == EngineParams {
                saw_vol: r.saw_vol,
                square_vol: r.square_vol,
                triangle_vol: r.triangle_vol,
                sine_vol: r.sine_vol,
                ..p
            }
        }),
{
}

/// One time of an envelope, by field.
pub open spec fn time_of<N>(t: AdsrTimes<N>, f: EnvelopeField) -> N {
    match f {
        EnvelopeField::Attack => t.attack_ms,
        EnvelopeField::Decay => t.decay_ms,
        EnvelopeField::Sustain => t.sustain,
        EnvelopeField::Release => t.release_ms,
    }
}

/// A single-field time command (`release 300`, `fenv a 5`) sets exactly that
/// field of the envelope it names to the value and keeps the envelope's other
/// three times; nothing but the envelopes and the link changes.
pub proof fn lemma_patch_sets_one_field<N>(
    p: EngineParams<N>,
    which: EnvelopeId,
    field: EnvelopeField,
    value: N,
    off: N,
    full: N,
)
    ensures
        ({
            let r = spec_apply(p, ControlEvent::PatchEnvelope { which, field, value }, off, full);
            &&& forall|g: EnvelopeField|
                #[trigger] time_of(spec_envelope(r, which), g) == (if g == field {
                    value
                } else {
                    time_of(spec_envelope(p, which), g)
                })
            &&& r == EngineParams {
                amp_env: r.amp_env,
                filter_env: r.filter_env,
                assignable_env: r.assignable_env,
                env_link: r.env_link,
                ..p
            }
        }),
{
}

/// Each plain setting command changes the one param it names to the value
/// given and leaves every other param as it was; `envcopy` puts the amp
/// times on the filter and assignable envelopes and changes nothing else.
pub proof fn lemma_setters_change_one_param<N>(p: EngineParams<N>, x: N, off: N, full: N)
    ensures
        spec_apply(p, ControlEvent::SetCutoff { hz: x }, off, full) == (EngineParams { cutoff_hz: x, ..p }),
        spec_apply(p, ControlEvent::SetResonance { amount: x }, off, full) == (EngineParams {
            resonance: x,
            ..p
        }),
        spec_apply(p, ControlEvent::SetPulse { width: x }, off, full) == (EngineParams {
            pulse_width: x,
            ..p
        }),
        spec_apply(p, ControlEvent::SetFilterEnvAmount { amount: x }, off, full) == (EngineParams {
            filter_env_amount: x,
            ..p
        }),
        spec_apply(p, ControlEvent::SetAssignableAmount { amount: x }, off, full) == (EngineParams {
            assignable_amount: x,
            ..p
        }),
        spec_apply(p, ControlEvent::SetEnvVel { amount: x }, off, full) == (EngineParams {
            env_vel: x,
            ..p
        }),
        spec_apply(p, ControlEvent::SetSubVol { amount: x }, off, full) == (EngineParams {
            sub_vol: x,
            ..p
        }),
        forall|d: AssignableDest|
            #[trigger] spec_apply(p, ControlEvent::SetAssignableDest { dest: d }, off, full) == (
            EngineParams { assignable_dest: d, ..p }),
        forall|o: SubOctaves|
            #[trigger] spec_apply(p, ControlEvent::SetSubOct { octaves: o }, off, full) == (
            EngineParams { sub_octaves: o, ..p }),
        spec_apply(p, ControlEvent::EnvCopy, off, full) == (EngineParams {
            filter_env: p.amp_env,
            assignable_env: p.amp_env,
            ..p
        }),
{
}

/// Array slot of an LFO: LFO 1 is the first, LFO 2 the second.
pub open spec fn lfo_slot(which: LfoId) -> int {
    match which {
        LfoId::One => 0,
        LfoId::Two => 1,
    }
}

/// The other LFO of the pair.
pub open spec fn other_lfo(which: LfoId) -> LfoId {
    match which {
        LfoId::One => LfoId::Two,
        LfoId::Two => LfoId::One,
    }
}

/// An LFO setting changes that one field of the LFO it names: the other
/// LFO and every other param stay as they were.
pub proof fn lemma_lfo_settings<N>(
    p: EngineParams<N>,
    which: LfoId,
    x: N,
    dest: AssignableDest,
    wave: LfoWave,
    on: bool,
    off: N,
    full: N,
)
    ensures
        ({
            let i = lfo_slot(which);
            let j = lfo_slot(other_lfo(which));
            let l = p.lfos[i];
            let a = spec_apply(p, ControlEvent::SetLfoAmount { which, amount: x }, off, full);
            let r = spec_apply(p, ControlEvent::SetLfoRate { which, rate_hz: x }, off, full);
            let d = spec_apply(p, ControlEvent::SetLfoDest { which, dest }, off, full);
            let w = spec_apply(p, ControlEvent::SetLfoWave { which, wave }, off, full);
            let t = spec_apply(p, ControlEvent::SetLfoRetrig { which, on }, off, full);
            &&& a.lfos[i] == (LfoParams { amount: x, ..l }) && a.lfos[j] == p.lfos[j]
            &&& a == EngineParams { lfos: a.lfos, ..p }
            &&& r.lfos[i] == (LfoParams { rate_hz: x, ..l }) && r.lfos[j] == p.lfos[j]
            &&& r == EngineParams { lfos: r.lfos, ..p }
            &&& d.lfos[i] == (LfoParams { dest, ..l }) && d.lfos[j] == p.lfos[j]
            &&& d == EngineParams { lfos: d.lfos, ..p }
            &&& w.lfos[i] == (LfoParams { wave, ..l }) && w.lfos[j] == p.lfos[j]
            &&& w == EngineParams { lfos: w.lfos, ..p }
            &&& t.lfos[i] == (LfoParams { retrigger: on, ..l }) && t.lfos[j] == p.lfos[j]
            &&& t == EngineParams { lfos: t.lfos, ..p }
        }),
{
}

} // verus!


//! Shared vocabulary: destinations, wave names, and the note and parameter
//! events that hosts send to the mixer.
//!
//! Events are generic over `N`, the representation of a numeric argument.
//! The library never computes with those numbers; it routes them. Hosts use
//! a float type; the command parser yields the argument text.

use vstd::prelude::*;

verus! {

/// Number of engine instances in the mixer.
pub const ENGINE_COUNT: usize = 4;

/// Fixed number of simultaneous voices per engine instance.
pub const VOICE_COUNT: usize = 4;

/// Destination for an assignable envelope or LFO.
#[derive(Debug, Clone, Copy, PartialEq, Eq, Structural)]
pub enum AssignableDest {
    Off,
    Resonance,
    Pitch,
    Cutoff,
    PulseWidth,
    Amp,
}

/// How many octaves below the sounding pitch the sub oscillator sits.
#[derive(Debug, Clone, Copy, PartialEq, Eq, Structural)]
pub enum SubOctaves {
    One,
    Two,
}

impl SubOctaves {
    /// Octave count as a number: 1 or 2.
    pub fn as_u8(self) -> (r: u8)
        ensures
            r == (match self {
                SubOctaves::One => 1u8,
                SubOctaves::Two => 2u8,
            }),
    {
        match self {
            SubOctaves::One => 1,
            SubOctaves::Two => 2,
        }
    }
}

/// Which of the three ADSRs on a voice.
#[derive(Debug, Clone, Copy, PartialEq, Eq, Structural)]
pub enum EnvelopeId {
    Amp,
    Filter,
    Assignable,
}

/// One ADSR time or sustain field, used with [`ControlEvent::PatchEnvelope`].
#[derive(Debug, Clone, Copy, PartialEq, Eq, Structural)]
pub enum EnvelopeField {
    Attack,
    Decay,
    Sustain,
    Release,
}

/// Which of the two assignable LFOs on an engine instance.
#[derive(Debug, Clone, Copy, PartialEq, Eq, Structural)]
pub enum LfoId {
    One,
    Two,
}

impl LfoId {
    pub open spec fn spec_index(self) -> nat {
        match self {
            LfoId::One => 0,
            LfoId::Two => 1,
        }
    }

    /// Array position of this LFO: 0 or 1.
    pub fn index(self) -> (r: usize)
        ensures
            r == self.spec_index(),
            r < 2,
    {
        match self {
            LfoId::One => 0,
            LfoId::Two => 1,
        }
    }
}

/// Wave shape for an assignable LFO.
#[derive(Debug, Clone, Copy, PartialEq, Eq, Structural)]
pub enum LfoWave {
    Sine,
    Triangle,
    Square,
    Saw,
    SampleHold,
}

/// Waveform preset for the oscillator mix.
#[derive(Debug, Clone, Copy, PartialEq, Eq, Structural)]
pub enum Waveform {
    Saw,
    Square,
    Triangle,
    Sine,
}

/// Attack, decay, sustain, and release for one ADSR.
#[derive(Debug, Clone, Copy, PartialEq)]
pub struct AdsrTimes<N> {
    pub attack_ms: N,
    pub decay_ms: N,
    pub sustain: N,
    pub release_ms: N,
}

impl<N: DeepView> DeepView for AdsrTimes<N> {
    type V = AdsrTimes<N::V>;

    open spec fn deep_view(&self) -> AdsrTimes<N::V> {
        AdsrTimes {
            attack_ms: self.attack_ms.deep_view(),
            decay_ms: self.decay_ms.deep_view(),
            sustain: self.sustain.deep_view(),
            release_ms: self.release_ms.deep_view(),
        }
    }
}

/// Discrete notes and param changes for one engine instance.
#[derive(Debug, Clone, Copy, PartialEq)]
pub enum ControlEvent<N> {
    NoteOn { note: u8, velocity: u8 },
    NoteOff { note: u8 },
    SetCutoff { hz: N },
    SetResonance { amount: N },
    SetWave { waveform: Waveform },
    SetSawVol { amount: N },
    SetSquareVol { amount: N },
    SetTriangleVol { amount: N },
    SetSineVol { amount: N },
    SetPulse { width: N },
    SetEnvelope { which: EnvelopeId, times: AdsrTimes<N> },
    PatchEnvelope { which: EnvelopeId, field: EnvelopeField, value: N },
    SetFilterEnvAmount { amount: N },
    SetAssignableDest { dest: AssignableDest },
    SetAssignableAmount { amount: N },
    SetLfoDest { which: LfoId, dest: AssignableDest },
    SetLfoAmount { which: LfoId, amount: N },
    SetLfoRate { which: LfoId, rate_hz: N },
    SetLfoWave { which: LfoId, wave: LfoWave },
    SetLfoRetrig { which: LfoId, on: bool },
    EnvCopy,
    SetEnvLink { on: bool },
    SetEnvVel { amount: N },
    SetSubVol { amount: N },
    SetSubOct { octaves: SubOctaves },
}

impl<N: DeepView> DeepView for ControlEvent<N> {
    type V = ControlEvent<N::V>;

    open spec fn deep_view(&self) -> ControlEvent<N::V> {
        match *self {
            ControlEvent::NoteOn { note, velocity } => ControlEvent::NoteOn { note, velocity },
            ControlEvent::NoteOff { note } => ControlEvent::NoteOff { note },
            ControlEvent::SetCutoff { hz } => ControlEvent::SetCutoff { hz: hz.deep_view() },
            ControlEvent::SetResonance { amount } => ControlEvent::SetResonance {
                amount: amount.deep_view(),
            },
            ControlEvent::SetWave { waveform } => ControlEvent::SetWave { waveform },
            ControlEvent::SetSawVol { amount } => ControlEvent::SetSawVol {
                amount: amount.deep_view(),
            },
            ControlEvent::SetSquareVol { amount } => ControlEvent::SetSquareVol {
                amount: amount.deep_view(),
            },
            ControlEvent::SetTriangleVol { amount } => ControlEvent::SetTriangleVol {
                amount: amount.deep_view(),
            },
            ControlEvent::SetSineVol { amount } => ControlEvent::SetSineVol {
                amount: amount.deep_view(),
            },
            ControlEvent::SetPulse { width } => ControlEvent::SetPulse { width: width.deep_view() },
            ControlEvent::SetEnvelope { which, times } => ControlEvent::SetEnvelope {
                which,
                times: times.deep_view(),
            },
            ControlEvent::PatchEnvelope { which, field, value } => ControlEvent::PatchEnvelope {
                which,
                field,
                value: value.deep_view(),
            },
            ControlEvent::SetFilterEnvAmount { amount } => ControlEvent::SetFilterEnvAmount {
                amount: amount.deep_view(),
            },
            ControlEvent::SetAssignableDest { dest } => ControlEvent::SetAssignableDest { dest },
            ControlEvent::SetAssignableAmount { amount } => ControlEvent::SetAssignableAmount {
                amount: amount.deep_view(),
            },
            ControlEvent::SetLfoDest { which, dest } => ControlEvent::SetLfoDest { which, dest },
            ControlEvent::SetLfoAmount { which, amount } => ControlEvent::SetLfoAmount {
                which,
                amount: amount.deep_view(),
            },
            ControlEvent::SetLfoRate { which, rate_hz } => ControlEvent::SetLfoRate {
                which,
                rate_hz: rate_hz.deep_view(),
            },
            ControlEvent::SetLfoWave { which, wave } => ControlEvent::SetLfoWave { which, wave },
            ControlEvent::SetLfoRetrig { which, on } => ControlEvent::SetLfoRetrig { which, on },
            ControlEvent::EnvCopy => ControlEvent::EnvCopy,
            ControlEvent::SetEnvLink { on } => ControlEvent::SetEnvLink { on },
            ControlEvent::SetEnvVel { amount } => ControlEvent::SetEnvVel {
                amount: amount.deep_view(),
            },
            ControlEvent::SetSubVol { amount } => ControlEvent::SetSubVol {
                amount: amount.deep_view(),
            },
            ControlEvent::SetSubOct { octaves } => ControlEvent::SetSubOct { octaves },
        }
    }
}

/// An event for one mixer slot: a note or param change, or a routing change.
#[derive(Debug, Clone, Copy, PartialEq)]
pub enum InstanceEvent<N> {
    Engine(ControlEvent<N>),
    SetEnabled { on: bool },
    SetListenChannel { channel: u8 },
    SetVolume { amount: N },
}

impl<N: DeepView> DeepView for InstanceEvent<N> {
    type V = InstanceEvent<N::V>;

    open spec fn deep_view(&self) -> InstanceEvent<N::V> {
        match *self {
            InstanceEvent::Engine(c) => InstanceEvent::Engine(c.deep_view()),
            InstanceEvent::SetEnabled { on } => InstanceEvent::SetEnabled { on },
            InstanceEvent::SetListenChannel { channel } => InstanceEvent::SetListenChannel {
                channel,
            },
            InstanceEvent::SetVolume { amount } => InstanceEvent::SetVolume {
                amount: amount.deep_view(),
            },
        }
    }
}

/// An event for the mixer: addressed to one 1-based slot, or a MIDI note
/// that every listening slot receives.
#[derive(Debug, Clone, Copy, PartialEq)]
pub enum MixerEvent<N> {
    /// `instance` is 1-based (`eng 1` through `eng 4`).
    ToInstance { instance: u8, event: InstanceEvent<N> },
    MidiNoteOn { channel: u8, note: u8, velocity: u8 },
    MidiNoteOff { channel: u8, note: u8 },
}

impl<N: DeepView> DeepView for MixerEvent<N> {
    type V = MixerEvent<N::V>;

    open spec fn deep_view(&self) -> MixerEvent<N::V> {
        match *self {
            MixerEvent::ToInstance { instance, event } => MixerEvent::ToInstance {
                instance,
                event: event.deep_view(),
            },
            MixerEvent::MidiNoteOn { channel, note, velocity } => MixerEvent::MidiNoteOn {
                channel,
                note,
                velocity,
            },
            MixerEvent::MidiNoteOff { channel, note } => MixerEvent::MidiNoteOff { channel, note },
        }
    }
}

} // verus!

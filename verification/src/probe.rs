//! Decisions of the Seed 3 audio-load probe: the order of its test steps
//! and how a measured callback cost is reported.

use vstd::prelude::*;
use crate::events::{InstanceEvent, MixerEvent, ENGINE_COUNT};

verus! {

/// Cycles available to one 32-frame audio callback.
pub const CALLBACK_CYCLES: u32 = 320_000;

/// Half of the callback budget.
pub const HALF_BUDGET_CYCLES: u32 = CALLBACK_CYCLES / 2;

/// Three quarters of the callback budget.
pub const THREE_QUARTER_BUDGET_CYCLES: u32 = CALLBACK_CYCLES * 3 / 4;

/// One probe configuration; each button press moves to the next.
#[derive(Debug, Clone, Copy, PartialEq, Eq, Structural)]
pub enum ProbeStep {
    RawTriangle,
    DefaultEngine,
    HeavyOne,
    HeavyTwo,
    HeavyThree,
    HeavyFour,
    HeavyTwoEngines,
    HeavyFourEngines,
    HeavyTwoEnginesFourNotes,
    HeavyThreeEnginesFourNotes,
    HeavyFourEnginesFourNotes,
}

/// Position of a step in the cycle.
pub open spec fn step_number(s: ProbeStep) -> nat {
    match s {
        ProbeStep::RawTriangle => 0,
        ProbeStep::DefaultEngine => 1,
        ProbeStep::HeavyOne => 2,
        ProbeStep::HeavyTwo => 3,
        ProbeStep::HeavyThree => 4,
        ProbeStep::HeavyFour => 5,
        ProbeStep::HeavyTwoEngines => 6,
        ProbeStep::HeavyFourEngines => 7,
        ProbeStep::HeavyTwoEnginesFourNotes => 8,
        ProbeStep::HeavyThreeEnginesFourNotes => 9,
        ProbeStep::HeavyFourEnginesFourNotes => 10,
    }
}

/// Number of probe steps.
pub open spec fn step_count() -> nat {
    11
}

impl ProbeStep {
    pub open spec fn spec_next(self) -> ProbeStep {
        match self {
            ProbeStep::RawTriangle => ProbeStep::DefaultEngine,
            ProbeStep::DefaultEngine => ProbeStep::HeavyOne,
            ProbeStep::HeavyOne => ProbeStep::HeavyTwo,
            ProbeStep::HeavyTwo => ProbeStep::HeavyThree,
            ProbeStep::HeavyThree => ProbeStep::HeavyFour,
            ProbeStep::HeavyFour => ProbeStep::HeavyTwoEngines,
            ProbeStep::HeavyTwoEngines => ProbeStep::HeavyFourEngines,
            ProbeStep::HeavyFourEngines => ProbeStep::HeavyTwoEnginesFourNotes,
            ProbeStep::HeavyTwoEnginesFourNotes => ProbeStep::HeavyThreeEnginesFourNotes,
            ProbeStep::HeavyThreeEnginesFourNotes => ProbeStep::HeavyFourEnginesFourNotes,
            ProbeStep::HeavyFourEnginesFourNotes => ProbeStep::RawTriangle,
        }
    }

    /// The step after this one; the last wraps to the raw triangle.
    pub fn next(self) -> (r: ProbeStep)
        ensures
            r == self.spec_next(),
            step_number(r) == (step_number(self) + 1) % step_count(),
    {
        match self {
            ProbeStep::RawTriangle => ProbeStep::DefaultEngine,
            ProbeStep::DefaultEngine => ProbeStep::HeavyOne,
            ProbeStep::HeavyOne => ProbeStep::HeavyTwo,
            ProbeStep::HeavyTwo => ProbeStep::HeavyThree,
            ProbeStep::HeavyThree => ProbeStep::HeavyFour,
            ProbeStep::HeavyFour => ProbeStep::HeavyTwoEngines,
            ProbeStep::HeavyTwoEngines => ProbeStep::HeavyFourEngines,
            ProbeStep::HeavyFourEngines => ProbeStep::HeavyTwoEnginesFourNotes,
            ProbeStep::HeavyTwoEnginesFourNotes => ProbeStep::HeavyThreeEnginesFourNotes,
            ProbeStep::HeavyThreeEnginesFourNotes => ProbeStep::HeavyFourEnginesFourNotes,
            ProbeStep::HeavyFourEnginesFourNotes => ProbeStep::RawTriangle,
        }
    }
}

/// The step reached after `k` presses.
pub open spec fn step_after(s: ProbeStep, k: nat) -> ProbeStep
    decreases k,
{
    if k == 0 {
        s
    } else {
        step_after(s.spec_next(), (k - 1) as nat)
    }
}

proof fn lemma_step_after_number(s: ProbeStep, k: nat)
    ensures
        step_number(step_after(s, k)) == (step_number(s) + k) % step_count(),
    decreases k,
{
    if k > 0 {
        lemma_step_after_number(s.spec_next(), (k - 1) as nat);
    }
}

proof fn lemma_number_determines_step(a: ProbeStep, b: ProbeStep)
    requires
        step_number(a) == step_number(b),
    ensures
        a == b,
{
}

/// Presses walk every step once and return to the start: after `k` presses
/// the probe is `k` steps further along the cycle of eleven, and after
/// eleven presses it is back where it began. The first press after boot
/// (starting from the last step) plays the raw triangle.
pub proof fn lemma_probe_cycle(s: ProbeStep, k: nat)
    ensures
        step_number(step_after(s, k)) == (step_number(s) + k) % step_count(),
        step_after(s, step_count()) == s,
        ProbeStep::HeavyFourEnginesFourNotes.spec_next() == ProbeStep::RawTriangle,
{
    lemma_step_after_number(s, k);
    lemma_step_after_number(s, step_count());
    assert((step_number(s) + 11) % 11 == step_number(s) % 11);
    lemma_number_determines_step(step_after(s, step_count()), s);
}

/// LED blink count for a measured callback cost: 1 under half the budget,
/// 2 under three quarters, 3 otherwise.
pub fn classify_cycles(cycles: u32) -> (r: u8)
    ensures
        r == (if cycles < HALF_BUDGET_CYCLES {
            1u8
        } else if cycles < THREE_QUARTER_BUDGET_CYCLES {
            2u8
        } else {
            3u8
        }),
{
    if cycles < HALF_BUDGET_CYCLES {
        1
    } else if cycles < THREE_QUARTER_BUDGET_CYCLES {
        2
    } else {
        3
    }
}

/// Notes the heavy steps hold, lowest first.
pub const HEAVY_NOTES: [u8; 4] = [48, 52, 55, 59];

/// Note the default-engine step holds.
pub const DEFAULT_NOTE: u8 = 60;

/// Channel engine 1 listens on; single-engine steps play on it.
pub const LISTEN_CHANNEL: u8 = 1;

/// Velocity of every probe note.
pub const NOTE_VELOCITY: u8 = 100;

/// What the audio callback renders.
#[derive(Debug, Clone, Copy, PartialEq, Eq, Structural)]
pub enum ProbeMode {
    Silent,
    RawTriangle,
    DefaultEngine,
    HeavyEngine,
}

/// Which patch a step loads.
#[derive(Debug, Clone, Copy, PartialEq, Eq, Structural)]
pub enum ProbePatch {
    /// The engine's default params.
    Default,
    /// The deterministic heavy patch.
    Heavy,
}

/// Instance volume of a loaded patch: the listen level of one engine, or
/// that level shared across several engines so the mix stays near it.
#[derive(Debug, Clone, Copy, PartialEq, Eq, Structural)]
pub enum ProbeVolume {
    Default,
    Heavy,
    TwoEngines,
    FourEngines,
    /// The heavy level divided by `engines`.
    HeavyShared { engines: u8 },
}

/// What one probe step asks of the firmware.
#[derive(Debug, Clone, Copy, PartialEq, Eq, Structural)]
pub enum StepPlan {
    /// Render the raw triangle, then turn every engine off.
    RawTriangle,
    /// Go silent and turn every engine off; load `patch` on engine 1 at
    /// `volume`, turn it on, hold `note` on the listen channel; after a short
    /// wait, render `mode`.
    SingleEngine { patch: ProbePatch, volume: ProbeVolume, note: u8, mode: ProbeMode },
    /// Hold one more note on engine 1.
    AddNote { note: u8 },
    /// Go silent, turn every engine off, and wait; then for each engine from
    /// 1 to `engines`, load the heavy patch at `volume`, turn it on, wait,
    /// hold `notes_per_engine` notes, and wait; then render the heavy engine.
    Engines { engines: u8, notes_per_engine: usize, volume: ProbeVolume },
}

pub open spec fn spec_step_plan(step: ProbeStep) -> StepPlan {
    match step {
        ProbeStep::RawTriangle => StepPlan::RawTriangle,
        ProbeStep::DefaultEngine => StepPlan::SingleEngine {
            patch: ProbePatch::Default,
            volume: ProbeVolume::Default,
            note: DEFAULT_NOTE,
            mode: ProbeMode::DefaultEngine,
        },
        ProbeStep::HeavyOne => StepPlan::SingleEngine {
            patch: ProbePatch::Heavy,
            volume: ProbeVolume::Heavy,
            note: 48,
            mode: ProbeMode::HeavyEngine,
        },
        ProbeStep::HeavyTwo => StepPlan::AddNote { note: 52 },
        ProbeStep::HeavyThree => StepPlan::AddNote { note: 55 },
        ProbeStep::HeavyFour => StepPlan::AddNote { note: 59 },
        ProbeStep::HeavyTwoEngines => StepPlan::Engines {
            engines: 2,
            notes_per_engine: 1,
            volume: ProbeVolume::TwoEngines,
        },
        ProbeStep::HeavyFourEngines => StepPlan::Engines {
            engines: 4,
            notes_per_engine: 1,
            volume: ProbeVolume::FourEngines,
        },
        ProbeStep::HeavyTwoEnginesFourNotes => StepPlan::Engines {
            engines: 2,
            notes_per_engine: 4,
            volume: ProbeVolume::HeavyShared { engines: 2 },
        },
        ProbeStep::HeavyThreeEnginesFourNotes => StepPlan::Engines {
            engines: 3,
            notes_per_engine: 4,
            volume: ProbeVolume::HeavyShared { engines: 3 },
        },
        ProbeStep::HeavyFourEnginesFourNotes => StepPlan::Engines {
            engines: 4,
            notes_per_engine: 4,
            volume: ProbeVolume::HeavyShared { engines: 4 },
        },
    }
}

/// The plan of one probe step: the default patch and then the heavy one on
/// engine 1, one to four held notes there, then the heavy patch on two and
/// four engines with one note each, and on two, three, and four engines
/// with all four notes each.
pub fn step_plan(step: ProbeStep) -> (r: StepPlan)
    ensures
        r == spec_step_plan(step),
{
    match step {
        ProbeStep::RawTriangle => StepPlan::RawTriangle,
        ProbeStep::DefaultEngine => StepPlan::SingleEngine {
            patch: ProbePatch::Default,
            volume: ProbeVolume::Default,
            note: DEFAULT_NOTE,
            mode: ProbeMode::DefaultEngine,
        },
        ProbeStep::HeavyOne => StepPlan::SingleEngine {
            patch: ProbePatch::Heavy,
            volume: ProbeVolume::Heavy,
            note: HEAVY_NOTES[0],
            mode: ProbeMode::HeavyEngine,
        },
        ProbeStep::HeavyTwo => StepPlan::AddNote { note: HEAVY_NOTES[1] },
        ProbeStep::HeavyThree => StepPlan::AddNote { note: HEAVY_NOTES[2] },
        ProbeStep::HeavyFour => StepPlan::AddNote { note: HEAVY_NOTES[3] },
        ProbeStep::HeavyTwoEngines => StepPlan::Engines {
            engines: 2,
            notes_per_engine: 1,
            volume: ProbeVolume::TwoEngines,
        },
        ProbeStep::HeavyFourEngines => StepPlan::Engines {
            engines: 4,
            notes_per_engine: 1,
            volume: ProbeVolume::FourEngines,
        },
        ProbeStep::HeavyTwoEnginesFourNotes => StepPlan::Engines {
            engines: 2,
            notes_per_engine: 4,
            volume: ProbeVolume::HeavyShared { engines: 2 },
        },
        ProbeStep::HeavyThreeEnginesFourNotes => StepPlan::Engines {
            engines: 3,
            notes_per_engine: 4,
            volume: ProbeVolume::HeavyShared { engines: 3 },
        },
        ProbeStep::HeavyFourEnginesFourNotes => StepPlan::Engines {
            engines: 4,
            notes_per_engine: 4,
            volume: ProbeVolume::HeavyShared { engines: 4 },
        },
    }
}

/// A MIDI note-on at the probe velocity.
pub open spec fn probe_note_on<N>(channel: u8, note: u8) -> MixerEvent<N> {
    MixerEvent::MidiNoteOn { channel, note, velocity: NOTE_VELOCITY }
}

/// Turns one engine (1-based) on or off.
pub fn enabled_event<N>(instance: u8, on: bool) -> (r: MixerEvent<N>)
    ensures
        r == (MixerEvent::<N>::ToInstance { instance, event: InstanceEvent::SetEnabled { on } }),
{
    MixerEvent::ToInstance { instance, event: InstanceEvent::SetEnabled { on } }
}

/// A note-on for the probe.
pub fn note_on<N>(channel: u8, note: u8) -> (r: MixerEvent<N>)
    ensures
        r == probe_note_on::<N>(channel, note),
{
    MixerEvent::MidiNoteOn { channel, note, velocity: NOTE_VELOCITY }
}

/// Events that turn every engine off, engine 1 first.
pub fn disable_all<N>() -> (r: Vec<MixerEvent<N>>)
    ensures
        r@.len() == ENGINE_COUNT,
        forall|i: int|
            0 <= i < ENGINE_COUNT ==> #[trigger] r@[i] == (MixerEvent::<N>::ToInstance {
                instance: (i + 1) as u8,
                event: InstanceEvent::SetEnabled { on: false },
            }),
{
    let mut out: Vec<MixerEvent<N>> = Vec::new();
    let mut instance: u8 = 1;
    while instance <= 4
        invariant
            1 <= instance <= 5,
            out@.len() == instance - 1,
            forall|i: int|
                0 <= i < instance - 1 ==> #[trigger] out@[i] == (MixerEvent::<N>::ToInstance {
                    instance: (i + 1) as u8,
                    event: InstanceEvent::SetEnabled { on: false },
                }),
        decreases 5 - instance,
    {
        out.push(enabled_event(instance, false));
        instance = instance + 1;
    }
    out
}

/// Notes an engine holds in a multi-engine step, on its own channel: with
/// one note per engine, engine `k` holds the `k`-th heavy note; otherwise
/// each engine holds the first `notes_per_engine` heavy notes (at most four).
pub open spec fn spec_held_notes<N>(instance: u8, notes_per_engine: usize) -> Seq<MixerEvent<N>> {
    if notes_per_engine == 1 {
        seq![probe_note_on::<N>(instance, HEAVY_NOTES@[instance - 1])]
    } else {
        HEAVY_NOTES@.take(
            if notes_per_engine < 4 {
                notes_per_engine as int
            } else {
                4
            },
        ).map_values(|n: u8| probe_note_on::<N>(instance, n))
    }
}

/// The note-on events of one engine in a multi-engine step.
pub fn held_notes<N>(instance: u8, notes_per_engine: usize) -> (r: Vec<MixerEvent<N>>)
    requires
        notes_per_engine == 1 ==> 1 <= instance <= 4,
    ensures
        r@ == spec_held_notes::<N>(instance, notes_per_engine),
{
    let mut out: Vec<MixerEvent<N>> = Vec::new();
    if notes_per_engine == 1 {
        out.push(note_on(instance, HEAVY_NOTES[(instance - 1) as usize]));
        assert(out@ =~= spec_held_notes::<N>(instance, notes_per_engine));
        return out;
    }
    let count: usize = if notes_per_engine < 4 {
        notes_per_engine
    } else {
        4
    };
    let mut k: usize = 0;
    while k < count
        invariant
            count <= 4,
            k <= count,
            out@ == HEAVY_NOTES@.take(k as int).map_values(
                |n: u8| probe_note_on::<N>(instance, n),
            ),
        decreases count - k,
    {
        out.push(note_on(instance, HEAVY_NOTES[k]));
        assert(HEAVY_NOTES@.take(k + 1) =~= HEAVY_NOTES@.take(k as int).push(HEAVY_NOTES@[k as int]));
        assert(out@ =~= HEAVY_NOTES@.take(k + 1).map_values(
            |n: u8| probe_note_on::<N>(instance, n),
        ));
        k = k + 1;
    }
    assert(out@ =~= spec_held_notes::<N>(instance, notes_per_engine));
    out
}

/// The status kept after one more measurement: the worst (highest)
/// classification seen since the status was last reset.
pub fn peak_result(current: u8, result: u8) -> (r: u8)
    ensures
        r == (if result > current {
            result
        } else {
            current
        }),
{
    if result > current {
        result
    } else {
        current
    }
}

/// LED blinks that report a status: the status held to 1 through 3.
pub fn blink_count(status: u8) -> (r: u8)
    ensures
        r == (if status < 1 {
            1
        } else if status > 3 {
            3
        } else {
            status
        }),
        1 <= r <= 3,
{
    if status < 1 {
        1
    } else if status > 3 {
        3
    } else {
        status
    }
}

} // verus!

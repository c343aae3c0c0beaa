//! ADSR stage machine. Levels move in the audio code; the stage changes
//! here: on note-on, note-off, forced silence, and when a per-sample step
//! reports that the current stage's target was reached.

use vstd::prelude::*;

verus! {

/// Envelope stage. For the amp envelope, Idle means the voice is silent and free.
#[derive(Debug, Clone, Copy, PartialEq, Eq, Structural)]
pub enum EnvelopeStage {
    Idle,
    Attack,
    Decay,
    Sustain,
    Release,
}

/// Progress order of the stages within one note: Attack, Decay, Sustain,
/// Release, then Idle.
pub open spec fn stage_rank(s: EnvelopeStage) -> nat {
    match s {
        EnvelopeStage::Attack => 0,
        EnvelopeStage::Decay => 1,
        EnvelopeStage::Sustain => 2,
        EnvelopeStage::Release => 3,
        EnvelopeStage::Idle => 4,
    }
}

impl EnvelopeStage {
    /// Anything but Idle.
    pub fn is_active(self) -> (r: bool)
        ensures
            r == (self != EnvelopeStage::Idle),
    {
        !matches!(self, EnvelopeStage::Idle)
    }

    pub fn is_releasing(self) -> (r: bool)
        ensures
            r == (self == EnvelopeStage::Release),
    {
        matches!(self, EnvelopeStage::Release)
    }

    /// Note-on (re)starts the attack from any stage; the level is kept, so
    /// steals and overlaps do not jump to 0.
    pub fn after_note_on(self) -> (r: EnvelopeStage)
        ensures
            r == EnvelopeStage::Attack,
    {
        EnvelopeStage::Attack
    }

    /// Note-off starts the release of a sounding envelope; an idle one stays idle.
    pub fn after_note_off(self) -> (r: EnvelopeStage)
        ensures
            r == (if self == EnvelopeStage::Idle {
                EnvelopeStage::Idle
            } else {
                EnvelopeStage::Release
            }),
    {
        if matches!(self, EnvelopeStage::Idle) {
            EnvelopeStage::Idle
        } else {
            EnvelopeStage::Release
        }
    }

    /// Immediate silence (the mixer slot was turned off).
    pub fn after_force_idle(self) -> (r: EnvelopeStage)
        ensures
            r == EnvelopeStage::Idle,
    {
        EnvelopeStage::Idle
    }

    pub open spec fn spec_after_step(self, reached: bool) -> EnvelopeStage {
        match self {
            EnvelopeStage::Attack => if reached {
                EnvelopeStage::Decay
            } else {
                EnvelopeStage::Attack
            },
            EnvelopeStage::Decay => if reached {
                EnvelopeStage::Sustain
            } else {
                EnvelopeStage::Decay
            },
            EnvelopeStage::Release => if reached {
                EnvelopeStage::Idle
            } else {
                EnvelopeStage::Release
            },
            other => other,
        }
    }

    /// Stage after one sample. `reached` says the level has met this stage's
    /// target: full scale in Attack, the sustain level in Decay, silence in
    /// Release. Sustain holds until note-off; Idle stays idle.
    pub fn after_step(self, reached: bool) -> (r: EnvelopeStage)
        ensures
            r == self.spec_after_step(reached),
    {
        match self {
            EnvelopeStage::Attack => if reached {
                EnvelopeStage::Decay
            } else {
                EnvelopeStage::Attack
            },
            EnvelopeStage::Decay => if reached {
                EnvelopeStage::Sustain
            } else {
                EnvelopeStage::Decay
            },
            EnvelopeStage::Release => if reached {
                EnvelopeStage::Idle
            } else {
                EnvelopeStage::Release
            },
            other => other,
        }
    }
}

/// Between note events, samples only move an envelope forward through
/// Attack, Decay, Sustain, and Release to Idle: never back, and never more
/// than one stage per sample. In particular a releasing or idle envelope
/// cannot sound again until the next note-on.
pub proof fn lemma_steps_move_forward(s: EnvelopeStage, reached: bool)
    ensures
        stage_rank(s) <= stage_rank(s.spec_after_step(reached)) <= stage_rank(s) + 1,
        stage_rank(s) >= 3 ==> stage_rank(s.spec_after_step(reached)) >= 3,
        s == EnvelopeStage::Idle ==> s.spec_after_step(reached) == EnvelopeStage::Idle,
        s == EnvelopeStage::Sustain ==> s.spec_after_step(reached) == EnvelopeStage::Sustain,
{
}

/// A stage whose target has not been reached stays as it is: attack keeps
/// rising, decay keeps falling, and release keeps fading until silence.
/// Reaching the target moves attack to decay, decay to sustain, and release
/// to idle; sustain and idle never move on their own.
pub proof fn lemma_stage_waits_for_its_target(s: EnvelopeStage)
    ensures
        s.spec_after_step(false) == s,
        EnvelopeStage::Attack.spec_after_step(true) == EnvelopeStage::Decay,
        EnvelopeStage::Decay.spec_after_step(true) == EnvelopeStage::Sustain,
        EnvelopeStage::Release.spec_after_step(true) == EnvelopeStage::Idle,
        EnvelopeStage::Sustain.spec_after_step(true) == EnvelopeStage::Sustain,
        EnvelopeStage::Idle.spec_after_step(true) == EnvelopeStage::Idle,
{
}

} // verus!

//! Voice allocation for one engine: which of its fixed voices a new note
//! takes, and which voices a note-off releases.
//!
//! A note already sounding retriggers its own voice; otherwise a free voice
//! is used; otherwise a voice is stolen, preferring voices already in
//! release (the oldest of those), else the oldest voice overall.

use vstd::prelude::*;
use crate::envelope::EnvelopeStage;

verus! {

/// What allocation needs to know about one voice.
#[derive(Debug, Clone, Copy, PartialEq, Eq, Structural)]
pub struct VoiceSlot {
    /// Stage of the voice's amp envelope (Idle means free).
    pub stage: EnvelopeStage,
    pub note: u8,
    /// Start stamp; higher means more recently started.
    pub age: u32,
}

pub open spec fn slot_active(v: VoiceSlot) -> bool {
    v.stage != EnvelopeStage::Idle
}

pub open spec fn slot_releasing(v: VoiceSlot) -> bool {
    v.stage == EnvelopeStage::Release
}

/// The slots that `pick` selects for stealing: releasing ones, or all.
pub open spec fn eligible(v: VoiceSlot, releasing_only: bool) -> bool {
    releasing_only ==> slot_releasing(v)
}

/// `i` is the first position in `s` holding the smallest age among the
/// eligible positions.
pub open spec fn is_first_oldest(s: Seq<VoiceSlot>, releasing_only: bool, i: int) -> bool {
    &&& 0 <= i < s.len()
    &&& eligible(s[i], releasing_only)
    &&& forall|j: int|
        0 <= j < s.len() && eligible(s[j], releasing_only) ==> s[i].age <= #[trigger] s[j].age
    &&& forall|j: int|
        0 <= j < i && eligible(s[j], releasing_only) ==> s[i].age < #[trigger] s[j].age
}

pub open spec fn any_releasing(s: Seq<VoiceSlot>) -> bool {
    exists|j: int| 0 <= j < s.len() && slot_releasing(#[trigger] s[j])
}

/// The voice to steal: the oldest releasing voice if any voice is releasing,
/// else the oldest voice; the first one among equal ages.
pub open spec fn is_steal_choice(s: Seq<VoiceSlot>, i: int) -> bool {
    is_first_oldest(s, any_releasing(s), i)
}

/// Index of the voice to steal when every voice is busy.
pub fn steal_index(voices: &[VoiceSlot]) -> (r: usize)
    requires
        voices@.len() > 0,
    ensures
        is_steal_choice(voices@, r as int),
{
    let n = voices.len();
    let mut best_rel: Option<usize> = None;
    let mut best_any: usize = 0;
    let mut i: usize = 0;
    while i < n
        invariant
            n == voices@.len(),
            0 < n,
            i <= n,
            best_any < n,
            i > 0 ==> is_first_oldest(voices@.take(i as int), false, best_any as int),
            i == 0 ==> best_any == 0,
            match best_rel {
                Some(b) => is_first_oldest(voices@.take(i as int), true, b as int),
                None => forall|j: int| 0 <= j < i ==> !slot_releasing(#[trigger] voices@[j]),
            },
        decreases n - i,
    {
        let v = voices[i];
        let ghost pre = voices@.take(i as int);
        let ghost post = voices@.take(i + 1);
        assert(post =~= pre.push(v));
        assert forall|j: int| 0 <= j < i implies #[trigger] post[j] == pre[j] by {}
        assert(post[i as int] == v);
        if i == 0 || v.age < voices[best_any].age {
            best_any = i;
        }
        if v.stage == EnvelopeStage::Release {
            match best_rel {
                Some(b) => {
                    if v.age < voices[b].age {
                        best_rel = Some(i);
                    }
                },
                None => {
                    best_rel = Some(i);
                },
            }
        }
        proof {
            assert forall|j: int| 0 <= j < post.len() && eligible(post[j], false) implies post[best_any as int].age
                <= #[trigger] post[j].age by {
                if j < i {
                    assert(post[j] == pre[j]);
                }
            }
            assert forall|j: int| 0 <= j < best_any && eligible(post[j], false) implies post[best_any as int].age
                < #[trigger] post[j].age by {
                assert(post[j] == pre[j]);
            }
            assert(is_first_oldest(post, false, best_any as int));
            match best_rel {
                Some(b) => {
                    assert forall|j: int| 0 <= j < post.len() && eligible(post[j], true) implies post[b as int].age
                        <= #[trigger] post[j].age by {
                        if j < i {
                            assert(post[j] == pre[j]);
                        }
                    }
                    assert forall|j: int| 0 <= j < b && eligible(post[j], true) implies post[b as int].age
                        < #[trigger] post[j].age by {
                        assert(post[j] == pre[j]);
                    }
                    assert(is_first_oldest(post, true, b as int));
                },
                None => {},
            }
        }
        i = i + 1;
    }
    assert(voices@.take(n as int) =~= voices@);
    match best_rel {
        Some(b) => b,
        None => best_any,
    }
}

pub open spec fn plays(v: VoiceSlot, note: u8) -> bool {
    slot_active(v) && v.note == note
}

/// The voice a note-on takes: the first voice already sounding that note,
/// else the first free voice, else the voice to steal.
pub open spec fn is_note_on_choice(s: Seq<VoiceSlot>, note: u8, i: int) -> bool {
    if exists|j: int| 0 <= j < s.len() && plays(#[trigger] s[j], note) {
        &&& 0 <= i < s.len()
        &&& plays(s[i], note)
        &&& forall|j: int| 0 <= j < i ==> !plays(#[trigger] s[j], note)
    } else if exists|j: int| 0 <= j < s.len() && !slot_active(#[trigger] s[j]) {
        &&& 0 <= i < s.len()
        &&& !slot_active(s[i])
        &&& forall|j: int| 0 <= j < i ==> slot_active(#[trigger] s[j])
    } else {
        is_steal_choice(s, i)
    }
}

/// Index of the voice that a note-on for `note` starts.
pub fn choose_voice(voices: &[VoiceSlot], note: u8) -> (r: usize)
    requires
        voices@.len() > 0,
    ensures
        is_note_on_choice(voices@, note, r as int),
{
    let n = voices.len();
    let mut i: usize = 0;
    while i < n
        invariant
            n == voices@.len(),
            i <= n,
            forall|j: int| 0 <= j < i ==> !plays(#[trigger] voices@[j], note),
        decreases n - i,
    {
        if voices[i].stage.is_active() && voices[i].note == note {
            return i;
        }
        i = i + 1;
    }
    let mut k: usize = 0;
    while k < n
        invariant
            n == voices@.len(),
            k <= n,
            forall|j: int| 0 <= j < n ==> !plays(#[trigger] voices@[j], note),
            forall|j: int| 0 <= j < k ==> slot_active(#[trigger] voices@[j]),
        decreases n - k,
    {
        if !voices[k].stage.is_active() {
            return k;
        }
        k = k + 1;
    }
    steal_index(voices)
}

/// Voices a note-off for `note` releases: every sounding voice playing it.
pub fn note_off_targets(voices: &[VoiceSlot], note: u8) -> (r: Vec<usize>)
    ensures
        forall|k: int| 0 <= k < r@.len() ==> #[trigger] r@[k] < voices@.len(),
        forall|a: int, b: int| 0 <= a < b < r@.len() ==> #[trigger] r@[a] < #[trigger] r@[b],
        forall|i: int|
            0 <= i < voices@.len() ==> (r@.contains(i as usize) <==> plays(
                #[trigger] voices@[i],
                note,
            )),
{
    let n = voices.len();
    let mut out: Vec<usize> = Vec::new();
    let mut i: usize = 0;
    while i < n
        invariant
            n == voices@.len(),
            i <= n,
            forall|k: int| 0 <= k < out@.len() ==> #[trigger] out@[k] < i,
            forall|a: int, b: int| 0 <= a < b < out@.len() ==> #[trigger] out@[a] < #[trigger] out@[b],
            forall|j: int|
                0 <= j < i ==> (out@.contains(j as usize) <==> plays(#[trigger] voices@[j], note)),
        decreases n - i,
    {
        if voices[i].stage.is_active() && voices[i].note == note {
            let ghost before = out@;
            out.push(i);
            assert(out@[before.len() as int] == i);
            assert forall|j: int| 0 <= j < i + 1 implies (out@.contains(j as usize) <==> plays(
                #[trigger] voices@[j],
                note,
            )) by {
                if j < i {
                    if before.contains(j as usize) {
                        let k = choose|k: int| 0 <= k < before.len() && before[k] == j as usize;
                        assert(out@[k] == j as usize);
                    }
                    if out@.contains(j as usize) {
                        let k = choose|k: int| 0 <= k < out@.len() && out@[k] == j as usize;
                        if k < before.len() {
                            assert(before[k] == j as usize);
                        }
                    }
                }
            }
        } else {
            assert forall|j: int| 0 <= j < i + 1 implies (out@.contains(j as usize) <==> plays(
                #[trigger] voices@[j],
                note,
            )) by {
                if j == i && out@.contains(j as usize) {
                    let k = choose|k: int| 0 <= k < out@.len() && out@[k] == j as usize;
                }
            }
        }
        i = i + 1;
    }
    out
}

/// What a note-on does to an engine's voices.
#[derive(Debug, Clone, PartialEq, Eq)]
pub enum NoteOnPlan {
    /// Velocity 0: release these voices, as a note-off would.
    Release { targets: Vec<usize> },
    /// Start the note on this voice.
    Start { index: usize },
}

/// A note-on with velocity 0 acts as a note-off; any other starts the note
/// on the voice that [`choose_voice`] picks.
pub fn plan_note_on(voices: &[VoiceSlot], note: u8, velocity: u8) -> (r: NoteOnPlan)
    requires
        voices@.len() > 0,
    ensures
        velocity == 0 <==> r is Release,
        r matches NoteOnPlan::Release { targets } ==> (forall|k: int|
            0 <= k < targets@.len() ==> #[trigger] targets@[k] < voices@.len()) && (forall|a: int, b: int|
            0 <= a < b < targets@.len() ==> #[trigger] targets@[a] < #[trigger] targets@[b]) && (forall|i: int|
            0 <= i < voices@.len() ==> (targets@.contains(i as usize) <==> plays(
                #[trigger] voices@[i],
                note,
            ))),
        r matches NoteOnPlan::Start { index } ==> is_note_on_choice(voices@, note, index as int),
{
    if velocity == 0 {
        NoteOnPlan::Release { targets: note_off_targets(voices, note) }
    } else {
        NoteOnPlan::Start { index: choose_voice(voices, note) }
    }
}

/// What a note-on takes, in plain terms: a voice already sounding the note
/// if there is one; else a free voice if there is one; else, when some voice
/// is in release, a releasing voice no younger than any other releasing
/// voice; else a voice no younger than any other.
pub proof fn lemma_note_on_takes(s: Seq<VoiceSlot>, note: u8, i: int)
    requires
        is_note_on_choice(s, note, i),
    ensures
        0 <= i < s.len(),
        (exists|j: int| 0 <= j < s.len() && s[j].stage != EnvelopeStage::Idle && s[j].note == note)
            ==> s[i].stage != EnvelopeStage::Idle && s[i].note == note,
        !(exists|j: int| 0 <= j < s.len() && s[j].stage != EnvelopeStage::Idle && s[j].note == note)
            && (exists|j: int| 0 <= j < s.len() && s[j].stage == EnvelopeStage::Idle) ==> s[i].stage
            == EnvelopeStage::Idle,
        (forall|j: int| 0 <= j < s.len() ==> s[j].stage != EnvelopeStage::Idle && s[j].note != note)
            && (exists|j: int| 0 <= j < s.len() && s[j].stage == EnvelopeStage::Release) ==> {
            &&& s[i].stage == EnvelopeStage::Release
            &&& forall|j: int|
                0 <= j < s.len() && s[j].stage == EnvelopeStage::Release ==> s[i].age <= s[j].age
        },
        (forall|j: int| 0 <= j < s.len() ==> s[j].stage != EnvelopeStage::Idle && s[j].note != note
            && s[j].stage != EnvelopeStage::Release) ==> forall|j: int|
            0 <= j < s.len() ==> s[i].age <= s[j].age,
{
    if exists|j: int| 0 <= j < s.len() && s[j].stage != EnvelopeStage::Idle && s[j].note == note {
        let j = choose|j: int| 0 <= j < s.len() && s[j].stage != EnvelopeStage::Idle && s[j].note == note;
        assert(plays(s[j], note));
    } else if exists|j: int| 0 <= j < s.len() && s[j].stage == EnvelopeStage::Idle {
        let j = choose|j: int| 0 <= j < s.len() && s[j].stage == EnvelopeStage::Idle;
        assert(!slot_active(s[j]));
        assert forall|k: int| 0 <= k < s.len() implies !plays(#[trigger] s[k], note) by {}
    } else {
        assert forall|k: int| 0 <= k < s.len() implies !plays(#[trigger] s[k], note) by {}
        assert forall|k: int| 0 <= k < s.len() implies slot_active(#[trigger] s[k]) by {}
        if exists|j: int| 0 <= j < s.len() && s[j].stage == EnvelopeStage::Release {
            let j = choose|j: int| 0 <= j < s.len() && s[j].stage == EnvelopeStage::Release;
            assert(slot_releasing(s[j]));
            assert forall|k: int| 0 <= k < s.len() && s[k].stage == EnvelopeStage::Release implies s[i].age
                <= s[k].age by {
                assert(eligible(s[k], true));
            }
        } else {
            assert(!any_releasing(s));
            assert forall|k: int| 0 <= k < s.len() implies s[i].age <= s[k].age by {
                assert(eligible(s[k], false));
            }
        }
    }
}

/// The voice a note-on takes is determined: two choices for the same voices
/// and note are the same voice.
pub proof fn lemma_note_on_choice_unique(s: Seq<VoiceSlot>, note: u8, i: int, j: int)
    requires
        is_note_on_choice(s, note, i),
        is_note_on_choice(s, note, j),
    ensures
        i == j,
{
    if i < j || j < i {
        let (a, b) = if i < j { (i, j) } else { (j, i) };
        if exists|k: int| 0 <= k < s.len() && plays(#[trigger] s[k], note) {
            assert(plays(s[a], note));
        } else if exists|k: int| 0 <= k < s.len() && !slot_active(#[trigger] s[k]) {
            assert(!slot_active(s[a]));
        } else {
            let r = any_releasing(s);
            assert(eligible(s[a], r));
            assert(s[b].age <= s[a].age);
            assert(s[a].age <= s[b].age);
        }
    }
}

} // verus!

//! Laptop-keyboard play mode: which keys are held, and what each key event
//! asks the host to do. The host reads the terminal and performs the action.

use vstd::prelude::*;
use std::collections::HashSet;
use crate::commands::{CommandState, spec_to_instance, KEYBOARD_VELOCITY};
use crate::events::{ControlEvent, InstanceEvent, MixerEvent};
use crate::midi::{
    key_offset, key_row, key_row_upper, key_to_note, lemma_keys_play_semitones, KEYBOARD_ROOT_NOTE,
};

verus! {

broadcast use vstd::std_specs::hash::group_hash_axioms;

/// Whether a key went down, came up, or repeats while held.
#[derive(Debug, Clone, Copy, PartialEq, Eq, Structural)]
pub enum KeyPhase {
    Press,
    Release,
    Repeat,
}

/// What the host does for one key event.
#[derive(Debug, Clone, Copy, PartialEq)]
pub enum KeyAction<N> {
    /// Leave play mode.
    Quit,
    /// Leave raw mode, read one command line, and dispatch it.
    CommandPrompt,
    /// Send this event to the mixer.
    Send(MixerEvent<N>),
    /// Tell the user that this engine (1-based) is off.
    EngineOff { engine: usize },
    /// Nothing to do.
    Ignore,
}

/// The note a key plays, if any.
pub open spec fn spec_key_note(c: char) -> Option<u8> {
    match key_offset(c) {
        Some(o) => Some((KEYBOARD_ROOT_NOTE + o) as u8),
        None => None,
    }
}

/// The current engine's note event for a keyboard note.
pub open spec fn keyboard_event<N>(session: &CommandState, note: u8, on: bool) -> MixerEvent<N> {
    spec_to_instance(
        session.current(),
        InstanceEvent::<N>::Engine(
            if on {
                ControlEvent::NoteOn { note, velocity: KEYBOARD_VELOCITY }
            } else {
                ControlEvent::NoteOff { note }
            },
        ),
    )
}

/// Held notes and the action for one key event. `key` is the character of a
/// character key, `None` for any other key.
pub open spec fn spec_on_key<N>(
    held: Set<u8>,
    key: Option<char>,
    phase: KeyPhase,
    session: &CommandState,
) -> (Set<u8>, KeyAction<N>) {
    let enabled = session.routing()[session.current() - 1].enabled;
    match phase {
        KeyPhase::Press => match key {
            Some(c) => if c == 'q' || c == 'Q' {
                (held, KeyAction::Quit)
            } else if c == '/' {
                (held, KeyAction::CommandPrompt)
            } else {
                match spec_key_note(c) {
                    Some(note) => if held.contains(note) {
                        (held, KeyAction::Ignore)
                    } else if enabled {
                        (held.insert(note), KeyAction::Send(keyboard_event(session, note, true)))
                    } else {
                        (held.insert(note), KeyAction::EngineOff { engine: session.current() })
                    },
                    None => (held, KeyAction::Ignore),
                }
            },
            None => (held, KeyAction::Ignore),
        },
        KeyPhase::Release => match key {
            Some(c) => match spec_key_note(c) {
                Some(note) => if held.contains(note) && enabled {
                    (held.remove(note), KeyAction::Send(keyboard_event(session, note, false)))
                } else {
                    (held.remove(note), KeyAction::Ignore)
                },
                None => (held, KeyAction::Ignore),
            },
            None => (held, KeyAction::Ignore),
        },
        KeyPhase::Repeat => (held, KeyAction::Ignore),
    }
}

/// The notes whose keys are down.
pub struct KeyboardState {
    pressed: HashSet<u8>,
}

impl View for KeyboardState {
    type V = Set<u8>;

    closed spec fn view(&self) -> Set<u8> {
        self.pressed@
    }
}

impl KeyboardState {
    /// No key is down.
    pub fn new() -> (r: KeyboardState)
        ensures
            r@ == Set::<u8>::empty(),
    {
        KeyboardState { pressed: HashSet::new() }
    }

    /// One key event. A press of `q` quits and `/` opens the command prompt.
    /// A note key plays only on its first press: it then sends note-on to the
    /// current engine, or reports the engine off, and counts as held either
    /// way. Releasing a held note key sends note-off while the engine is on.
    /// Other keys, repeats, and presses of held keys do nothing.
    pub fn on_key<N>(&mut self, key: Option<char>, phase: KeyPhase, session: &CommandState) -> (r:
        KeyAction<N>)
        requires
            session.wf(),
        ensures
            (final(self)@, r) == spec_on_key::<N>(old(self)@, key, phase, session),
    {
        match phase {
            KeyPhase::Press => match key {
                Some(c) => {
                    if c == 'q' || c == 'Q' {
                        KeyAction::Quit
                    } else if c == '/' {
                        KeyAction::CommandPrompt
                    } else {
                        match key_to_note(c) {
                            Some(note) => {
                                if self.pressed.insert(note) {
                                    if session.current_enabled() {
                                        KeyAction::Send(session.keyboard_note_event(note, true))
                                    } else {
                                        KeyAction::EngineOff {
                                            engine: session.current_engine_number(),
                                        }
                                    }
                                } else {
                                    assert(self.pressed@ =~= old(self).pressed@);
                                    KeyAction::Ignore
                                }
                            },
                            None => KeyAction::Ignore,
                        }
                    }
                },
                None => KeyAction::Ignore,
            },
            KeyPhase::Release => match key {
                Some(c) => match key_to_note(c) {
                    Some(note) => {
                        if self.pressed.remove(&note) && session.current_enabled() {
                            KeyAction::Send(session.keyboard_note_event(note, false))
                        } else {
                            KeyAction::Ignore
                        }
                    },
                    None => KeyAction::Ignore,
                },
                None => KeyAction::Ignore,
            },
            KeyPhase::Repeat => KeyAction::Ignore,
        }
    }
}

/// Held keys do not retrigger: a note-on goes out only for a note that was
/// not held, and leaves it held; a note-off goes out only for a held note,
/// and releases it. Keys that play no note change nothing.
pub proof fn lemma_keys_pair_up<N>(
    held: Set<u8>,
    key: Option<char>,
    phase: KeyPhase,
    session: &CommandState,
    note: u8,
)
    ensures
        spec_on_key::<N>(held, key, phase, session).1 == KeyAction::Send(
            keyboard_event::<N>(session, note, true),
        ) ==> !held.contains(note) && spec_on_key::<N>(held, key, phase, session).0.contains(note)
            && phase == KeyPhase::Press,
        spec_on_key::<N>(held, key, phase, session).1 == KeyAction::Send(
            keyboard_event::<N>(session, note, false),
        ) ==> held.contains(note) && !spec_on_key::<N>(held, key, phase, session).0.contains(note)
            && phase == KeyPhase::Release,
        (match key {
            Some(c) => spec_key_note(c) is None,
            None => true,
        }) ==> spec_on_key::<N>(held, key, phase, session).0 == held,
{
}

/// Playing the row: pressing the k-th key of A W S E D F T G Y H U J K (in
/// either case) while its note is not held sends note-on for note 60 + k at
/// velocity 100 to the current engine if that engine is on, and otherwise
/// reports the engine off; releasing it while held and the engine is on
/// sends that note's note-off. `q` or `Q` quits, `/` opens the command
/// prompt, and a repeat does nothing.
pub proof fn lemma_row_keys_play<N>(held: Set<u8>, session: &CommandState, k: int, c: char)
    requires
        0 <= k < 13,
        c == key_row()[k] || c == key_row_upper()[k],
    ensures
        ({
            let note = (60 + k) as u8;
            let on = session.routing()[session.current() - 1].enabled;
            &&& !held.contains(note) && on ==> spec_on_key::<N>(held, Some(c), KeyPhase::Press, session)
                == (
                held.insert(note),
                KeyAction::Send(
                    MixerEvent::ToInstance {
                        instance: session.current() as u8,
                        event: InstanceEvent::<N>::Engine(ControlEvent::NoteOn { note, velocity: 100 }),
                    },
                ),
            )
            &&& !held.contains(note) && !on ==> spec_on_key::<N>(
                held,
                Some(c),
                KeyPhase::Press,
                session,
            ) == (held.insert(note), KeyAction::<N>::EngineOff { engine: session.current() })
            &&& held.contains(note) && on ==> spec_on_key::<N>(
                held,
                Some(c),
                KeyPhase::Release,
                session,
            ) == (
                held.remove(note),
                KeyAction::Send(
                    MixerEvent::ToInstance {
                        instance: session.current() as u8,
                        event: InstanceEvent::<N>::Engine(ControlEvent::NoteOff { note }),
                    },
                ),
            )
        }),
        spec_on_key::<N>(held, Some('q'), KeyPhase::Press, session) == (held, KeyAction::<N>::Quit),
        spec_on_key::<N>(held, Some('Q'), KeyPhase::Press, session) == (held, KeyAction::<N>::Quit),
        spec_on_key::<N>(held, Some('/'), KeyPhase::Press, session) == (
            held,
            KeyAction::<N>::CommandPrompt,
        ),
        spec_on_key::<N>(held, Some(c), KeyPhase::Repeat, session) == (held, KeyAction::<N>::Ignore),
{
    lemma_keys_play_semitones(c);
    assert(key_offset(c) == Some(k as u8));
    assert(c != 'q' && c != 'Q' && c != '/') by {
        assert(key_row() =~= seq!['a', 'w', 's', 'e', 'd', 'f', 't', 'g', 'y', 'h', 'u', 'j', 'k']);
        assert(key_row_upper() =~= seq!['A', 'W', 'S', 'E', 'D', 'F', 'T', 'G', 'Y', 'H', 'U', 'J', 'K']);
    }
}

} // verus!

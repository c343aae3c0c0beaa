use stone_raft::commands::CommandState;
use stone_raft::envelope::EnvelopeStage;
use stone_raft::events::{ControlEvent, InstanceEvent, MixerEvent};
use stone_raft::keyboard::{KeyAction, KeyPhase, KeyboardState};
use stone_raft::lfo::{mix_seed, xorshift_step};
use stone_raft::midi::{key_to_note, parse_midi_message};
use stone_raft::mixer::{instance_index, Delivery, Router};
use stone_raft::voices::{choose_voice, note_off_targets, plan_note_on, steal_index, NoteOnPlan, VoiceSlot};

fn midi_on(channel: u8) -> MixerEvent<f32> {
    MixerEvent::MidiNoteOn { channel, note: 60, velocity: 127 }
}

fn enable(instance: u8, on: bool) -> MixerEvent<f32> {
    MixerEvent::ToInstance { instance, event: InstanceEvent::SetEnabled { on } }
}

fn listen(instance: u8, channel: u8) -> MixerEvent<f32> {
    MixerEvent::ToInstance { instance, event: InstanceEvent::SetListenChannel { channel } }
}

fn note_on_to(index: usize) -> Delivery<f32> {
    Delivery::Control { index, event: ControlEvent::NoteOn { note: 60, velocity: 127 } }
}

#[test]
fn from_midi_bytes_keeps_channel_5() {
    match MixerEvent::<f32>::from_midi_bytes(&[0x94, 60, 100]) {
        Some(MixerEvent::MidiNoteOn { channel: 5, note: 60, velocity: 100 }) => {}
        other => panic!("unexpected {other:?}"),
    }
}

#[test]
fn from_midi_bytes_note_on_velocity_zero_is_note_off() {
    match MixerEvent::<f32>::from_midi_bytes(&[0x94, 60, 0]) {
        Some(MixerEvent::MidiNoteOff { channel: 5, note: 60 }) => {}
        other => panic!("unexpected {other:?}"),
    }
}

#[test]
fn from_midi_bytes_note_off_status() {
    match MixerEvent::<f32>::from_midi_bytes(&[0x85, 61, 0]) {
        Some(MixerEvent::MidiNoteOff { channel: 6, note: 61 }) => {}
        other => panic!("unexpected {other:?}"),
    }
}

#[test]
fn from_midi_bytes_ignores_short_and_non_note() {
    assert_eq!(MixerEvent::<f32>::from_midi_bytes(&[0x94]), None);
    assert_eq!(MixerEvent::<f32>::from_midi_bytes(&[]), None);
    assert_eq!(MixerEvent::<f32>::from_midi_bytes(&[0xB0, 7, 100]), None);
}

#[test]
fn midi_parse_keeps_channel_5() {
    match parse_midi_message::<f32>(&[0x94, 60, 100]) {
        Some(MixerEvent::MidiNoteOn { channel: 5, note: 60, velocity: 100 }) => {}
        other => panic!("unexpected {other:?}"),
    }
}

#[test]
fn midi_note_on_without_velocity_byte_is_note_off() {
    assert_eq!(MixerEvent::<f32>::from_midi_bytes(&[0x94, 60]), None);
    assert_eq!(MixerEvent::<f32>::from_midi_bytes(&[0x85, 61]), None);
    assert_eq!(
        parse_midi_message::<f32>(&[0x9F, 72]),
        Some(MixerEvent::MidiNoteOff { channel: 16, note: 72 })
    );
}

#[test]
fn out_of_range_instance_is_ignored() {
    let mut router = Router::new();
    assert!(router.route(enable(0, false)).is_empty());
    assert!(router.route(enable(5, true)).is_empty());
    assert!(router.slot(0).enabled);
    assert!(!router.slot(1).enabled);
    assert_eq!(instance_index(0), None);
    assert_eq!(instance_index(5), None);
    assert_eq!(instance_index(4), Some(3));
}

#[test]
fn instance_1_default_hears_channel_1_not_channel_2() {
    let mut router = Router::new();
    assert_eq!(router.route(midi_on(1)), vec![note_on_to(0)]);
    assert!(router.route(midi_on(2)).is_empty());
}

#[test]
fn disabled_slot_2_hears_nothing_until_enabled() {
    let mut router = Router::new();
    assert!(router.route(midi_on(2)).is_empty());
    assert!(router.route(enable(2, true)).is_empty());
    assert_eq!(router.route(midi_on(2)), vec![note_on_to(1)]);
}

#[test]
fn slot_2_on_channel_5_ignores_channel_2() {
    let mut router = Router::new();
    router.route(enable(2, true));
    router.route(listen(2, 5));
    assert_eq!(router.route(midi_on(5)), vec![note_on_to(1)]);
    assert!(router.route(midi_on(2)).is_empty());
}

#[test]
fn two_instances_on_one_channel_both_hear_it() {
    let mut router = Router::new();
    router.route(listen(1, 5));
    router.route(enable(2, true));
    router.route(listen(2, 5));
    assert_eq!(router.route(midi_on(5)), vec![note_on_to(0), note_on_to(1)]);
    assert_eq!(router.listeners(5), vec![0, 1]);
}

#[test]
fn off_silences_and_volume_passes_through() {
    let mut router = Router::new();
    assert_eq!(router.route(enable(1, false)), vec![Delivery::Silence { index: 0 }]);
    assert!(router.route(midi_on(1)).is_empty());
    let vol = MixerEvent::ToInstance { instance: 3, event: InstanceEvent::SetVolume { amount: 0.5 } };
    assert_eq!(router.route(vol), vec![Delivery::Volume { index: 2, amount: 0.5 }]);
}

#[test]
fn listen_channel_is_clamped_to_midi_range() {
    let mut router = Router::new();
    router.route(listen(1, 0));
    assert_eq!(router.slot(0).listen_channel, 1);
    router.route(listen(1, 40));
    assert_eq!(router.slot(0).listen_channel, 16);
}

#[test]
fn engine_events_reach_a_disabled_slot() {
    let mut router = Router::new();
    let cutoff = MixerEvent::ToInstance {
        instance: 4,
        event: InstanceEvent::Engine(ControlEvent::SetCutoff { hz: 900.0 }),
    };
    assert_eq!(
        router.route(cutoff),
        vec![Delivery::Control { index: 3, event: ControlEvent::SetCutoff { hz: 900.0 } }]
    );
}

fn slot(stage: EnvelopeStage, note: u8, age: u32) -> VoiceSlot {
    VoiceSlot { stage, note, age }
}

#[test]
fn fifth_note_steals_oldest_releasing_voice() {
    let mut voices = [slot(EnvelopeStage::Idle, 0, 0); 4];
    let mut age = 1;
    for note in [60, 62, 64, 65] {
        let i = choose_voice(&voices, note);
        voices[i] = slot(EnvelopeStage::Attack, note, age);
        age += 1;
    }
    assert_eq!(voices.map(|v| v.note), [60, 62, 64, 65]);
    for i in note_off_targets(&voices, 60) {
        voices[i].stage = EnvelopeStage::Release;
    }
    let i = choose_voice(&voices, 67);
    voices[i] = slot(EnvelopeStage::Attack, 67, age);
    let notes = voices.map(|v| v.note);
    assert!(!notes.contains(&60));
    for note in [62, 64, 65, 67] {
        assert!(notes.contains(&note));
    }
}

#[test]
fn stealing_prefers_the_oldest_releasing_voice() {
    let voices = [
        slot(EnvelopeStage::Sustain, 60, 1),
        slot(EnvelopeStage::Release, 62, 4),
        slot(EnvelopeStage::Release, 64, 3),
        slot(EnvelopeStage::Attack, 65, 2),
    ];
    assert_eq!(steal_index(&voices), 2);
    let busy = [
        slot(EnvelopeStage::Sustain, 60, 7),
        slot(EnvelopeStage::Decay, 62, 5),
        slot(EnvelopeStage::Attack, 64, 5),
        slot(EnvelopeStage::Sustain, 65, 9),
    ];
    assert_eq!(steal_index(&busy), 1);
    assert_eq!(choose_voice(&busy, 64), 2);
    assert_eq!(choose_voice(&busy, 70), 1);
}

#[test]
fn note_off_releases_every_voice_of_the_note() {
    let voices = [
        slot(EnvelopeStage::Sustain, 60, 1),
        slot(EnvelopeStage::Idle, 60, 2),
        slot(EnvelopeStage::Release, 60, 3),
        slot(EnvelopeStage::Attack, 61, 4),
    ];
    assert_eq!(note_off_targets(&voices, 60), vec![0, 2]);
    assert!(note_off_targets(&voices, 99).is_empty());
}

#[test]
fn envelope_stages_follow_note_events() {
    let s = EnvelopeStage::Idle;
    assert!(!s.is_active());
    assert_eq!(s.after_note_off(), EnvelopeStage::Idle);
    let s = s.after_note_on();
    assert_eq!(s, EnvelopeStage::Attack);
    assert_eq!(s.after_step(false), EnvelopeStage::Attack);
    let s = s.after_step(true);
    assert_eq!(s, EnvelopeStage::Decay);
    let s = s.after_step(true);
    assert_eq!(s, EnvelopeStage::Sustain);
    assert_eq!(s.after_step(true), EnvelopeStage::Sustain);
    let s = s.after_note_off();
    assert!(s.is_releasing());
    assert_eq!(s.after_step(true), EnvelopeStage::Idle);
    assert_eq!(EnvelopeStage::Decay.after_force_idle(), EnvelopeStage::Idle);
}

#[test]
fn lfo_seeds_and_steps() {
    assert_eq!(mix_seed(0, 0), 4245456706);
    assert_eq!(mix_seed(1, 0), 3953245928);
    assert_eq!(mix_seed(0, 1), 4020029384);
    assert_eq!(mix_seed(3, 1), 1240961272);
    assert_eq!(xorshift_step(1), 270369);
    assert_eq!(xorshift_step(270369), 67634689);
    assert_eq!(xorshift_step(0), 0);
}

#[test]
fn keyboard_map_covers_one_octave_from_c4() {
    assert_eq!(key_to_note('a'), Some(60));
    assert_eq!(key_to_note('W'), Some(61));
    assert_eq!(key_to_note('k'), Some(72));
    assert_eq!(key_to_note('z'), None);
    assert_eq!(key_to_note('/'), None);
}

#[test]
fn keyboard_plays_each_key_once_until_released() {
    let session = CommandState::new();
    let mut keys = KeyboardState::new();
    let on = session.keyboard_note_event::<f32>(60, true);
    let off = session.keyboard_note_event::<f32>(60, false);
    assert_eq!(
        on,
        MixerEvent::ToInstance {
            instance: 1,
            event: InstanceEvent::Engine(ControlEvent::NoteOn { note: 60, velocity: 100 }),
        }
    );
    assert_eq!(keys.on_key::<f32>(Some('a'), KeyPhase::Press, &session), KeyAction::Send(on));
    assert_eq!(keys.on_key::<f32>(Some('a'), KeyPhase::Press, &session), KeyAction::Ignore);
    assert_eq!(keys.on_key::<f32>(Some('a'), KeyPhase::Repeat, &session), KeyAction::Ignore);
    assert_eq!(keys.on_key::<f32>(Some('a'), KeyPhase::Release, &session), KeyAction::Send(off));
    assert_eq!(keys.on_key::<f32>(Some('a'), KeyPhase::Release, &session), KeyAction::Ignore);
    assert_eq!(keys.on_key::<f32>(Some('q'), KeyPhase::Press, &session), KeyAction::Quit);
    assert_eq!(keys.on_key::<f32>(Some('/'), KeyPhase::Press, &session), KeyAction::CommandPrompt);
    assert_eq!(keys.on_key::<f32>(None, KeyPhase::Press, &session), KeyAction::Ignore);
    assert_eq!(keys.on_key::<f32>(Some('x'), KeyPhase::Press, &session), KeyAction::Ignore);
}

#[test]
fn keyboard_reports_a_disabled_engine() {
    let mut session = CommandState::new();
    let off = stone_raft::commands::parse_line_commands("off", 1).unwrap().expect("off");
    let _ = session.apply_parsed(off);
    let mut keys = KeyboardState::new();
    assert_eq!(
        keys.on_key::<f32>(Some('s'), KeyPhase::Press, &session),
        KeyAction::EngineOff { engine: 1 }
    );
    assert_eq!(keys.on_key::<f32>(Some('s'), KeyPhase::Press, &session), KeyAction::Ignore);
    assert_eq!(keys.on_key::<f32>(Some('s'), KeyPhase::Release, &session), KeyAction::Ignore);
}

#[test]
fn velocity_zero_note_on_releases_instead() {
    let voices = [
        slot(EnvelopeStage::Sustain, 60, 1),
        slot(EnvelopeStage::Idle, 0, 0),
        slot(EnvelopeStage::Attack, 60, 2),
        slot(EnvelopeStage::Idle, 0, 0),
    ];
    assert_eq!(plan_note_on(&voices, 60, 0), NoteOnPlan::Release { targets: vec![0, 2] });
    assert_eq!(plan_note_on(&voices, 60, 90), NoteOnPlan::Start { index: 0 });
    assert_eq!(plan_note_on(&voices, 62, 90), NoteOnPlan::Start { index: 1 });
}

#[test]
fn four_notes_take_four_voices_in_order() {
    let mut voices = [slot(EnvelopeStage::Idle, 0, 0); 4];
    let mut age = 1;
    for note in [60, 62, 64, 65] {
        let i = choose_voice(&voices, note);
        voices[i] = slot(EnvelopeStage::Attack, note, age);
        age += 1;
    }
    assert_eq!(voices.map(|v| v.note), [60, 62, 64, 65]);
}

#[test]
fn note_off_targets_come_in_slot_order() {
    let voices = [
        slot(EnvelopeStage::Release, 70, 1),
        slot(EnvelopeStage::Sustain, 70, 2),
        slot(EnvelopeStage::Decay, 71, 3),
        slot(EnvelopeStage::Attack, 70, 4),
    ];
    assert_eq!(note_off_targets(&voices, 70), vec![0, 1, 3]);
}

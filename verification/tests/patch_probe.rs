use stone_raft::demo::{play_arpeggio, ArpStep, DemoButton};
use stone_raft::events::{
    AdsrTimes, AssignableDest, ControlEvent, EnvelopeId, InstanceEvent, LfoId, LfoWave, MixerEvent,
    SubOctaves,
};
use stone_raft::params::{EngineParams, LfoParams};
use stone_raft::patch::{patch_events, PATCH_EVENT_MAX};
use stone_raft::probe::{
    blink_count, classify_cycles, disable_all, peak_result, enabled_event, held_notes, note_on, step_plan, ProbeMode,
    ProbePatch, ProbeStep, ProbeVolume, StepPlan, CALLBACK_CYCLES, HALF_BUDGET_CYCLES,
    THREE_QUARTER_BUDGET_CYCLES,
};

fn times(attack_ms: f32) -> AdsrTimes<f32> {
    AdsrTimes { attack_ms, decay_ms: 120.0, sustain: 0.5, release_ms: 300.0 }
}

fn sample_params(env_link: bool) -> EngineParams<f32> {
    EngineParams {
        saw_vol: 0.1,
        square_vol: 0.2,
        triangle_vol: 0.3,
        sine_vol: 0.4,
        pulse_width: 0.35,
        cutoff_hz: 600.0,
        resonance: 0.65,
        amp_env: times(5.0),
        filter_env: if env_link { times(5.0) } else { times(50.0) },
        assignable_env: if env_link { times(5.0) } else { times(500.0) },
        filter_env_amount: 4.0,
        assignable_amount: 0.5,
        assignable_dest: AssignableDest::Resonance,
        env_link,
        env_vel: 0.25,
        sub_vol: 0.5,
        sub_octaves: SubOctaves::Two,
        lfos: [
            LfoParams {
                dest: AssignableDest::Cutoff,
                amount: 1.5,
                rate_hz: 1.3,
                wave: LfoWave::Sine,
                retrigger: true,
            },
            LfoParams {
                dest: AssignableDest::Pitch,
                amount: 0.08,
                rate_hz: 0.7,
                wave: LfoWave::SampleHold,
                retrigger: false,
            },
        ],
    }
}

fn other_params() -> EngineParams<f32> {
    let mut p = sample_params(true);
    p.saw_vol = 1.0;
    p.cutoff_hz = 2_000.0;
    p.lfos[1].rate_hz = 9.0;
    p.amp_env = times(1.0);
    p.filter_env = times(1.0);
    p.assignable_env = times(1.0);
    p
}

fn engine_events(events: &[MixerEvent<f32>], instance: u8) -> Vec<ControlEvent<f32>> {
    let mut out = Vec::new();
    for e in events {
        match e {
            MixerEvent::ToInstance { instance: k, event } => {
                assert_eq!(*k, instance);
                match event {
                    InstanceEvent::Engine(c) => out.push(*c),
                    InstanceEvent::SetVolume { .. } => {}
                    other => panic!("a patch must not send {other:?}"),
                }
            }
            other => panic!("a patch must not send MIDI: {other:?}"),
        }
    }
    out
}

#[test]
fn patch_events_load_the_params_onto_any_slot() {
    for linked in [true, false] {
        let p = sample_params(linked);
        let patch = patch_events(2, &p, 0.7);
        assert!(patch.len() <= PATCH_EVENT_MAX);
        assert_eq!(patch.len(), if linked { 26 } else { 28 });
        assert_eq!(patch.as_slice().len(), patch.len());
        let mut slot = other_params();
        for c in engine_events(patch.as_slice(), 2) {
            slot.apply(c, 0.0, 1.0);
        }
        assert_eq!(slot, p);
    }
}

#[test]
fn patch_events_order_and_volume() {
    let p = sample_params(false);
    let patch = patch_events(3, &p, 0.6);
    let events = patch.as_slice();
    assert_eq!(
        events[0],
        MixerEvent::ToInstance {
            instance: 3,
            event: InstanceEvent::Engine(ControlEvent::SetSawVol { amount: 0.1 }),
        }
    );
    assert_eq!(
        events[9],
        MixerEvent::ToInstance {
            instance: 3,
            event: InstanceEvent::Engine(ControlEvent::SetEnvelope {
                which: EnvelopeId::Amp,
                times: times(5.0),
            }),
        }
    );
    assert_eq!(
        events[14],
        MixerEvent::ToInstance { instance: 3, event: InstanceEvent::SetVolume { amount: 0.6 } }
    );
    assert_eq!(
        events[15],
        MixerEvent::ToInstance {
            instance: 3,
            event: InstanceEvent::Engine(ControlEvent::SetLfoDest {
                which: LfoId::One,
                dest: AssignableDest::Cutoff,
            }),
        }
    );
    assert_eq!(
        events[25],
        MixerEvent::ToInstance {
            instance: 3,
            event: InstanceEvent::Engine(ControlEvent::SetEnvLink { on: false }),
        }
    );
    let volumes = events
        .iter()
        .filter(|e| matches!(e, MixerEvent::ToInstance { event: InstanceEvent::SetVolume { .. }, .. }))
        .count();
    assert_eq!(volumes, 1);
}

#[test]
fn linked_patch_sends_no_extra_envelope_times() {
    let linked = engine_events(patch_events(1, &sample_params(true), 1.0).as_slice(), 1);
    let extra = |events: &Vec<ControlEvent<f32>>| {
        events
            .iter()
            .filter(|e| {
                matches!(
                    e,
                    ControlEvent::SetEnvelope { which: EnvelopeId::Filter | EnvelopeId::Assignable, .. }
                )
            })
            .count()
    };
    let links = |events: &Vec<ControlEvent<f32>>| {
        events.iter().filter(|e| matches!(e, ControlEvent::SetEnvLink { .. })).count()
    };
    assert_eq!(extra(&linked), 0);
    assert_eq!(links(&linked), 1);
    let unlinked = engine_events(patch_events(1, &sample_params(false), 1.0).as_slice(), 1);
    assert_eq!(extra(&unlinked), 2);
    assert_eq!(links(&unlinked), 1);
}

#[test]
fn probe_steps_cycle_through_all_eleven() {
    let mut step = ProbeStep::HeavyFourEnginesFourNotes;
    step = step.next();
    assert_eq!(step, ProbeStep::RawTriangle);
    let mut seen = vec![step];
    for _ in 0..10 {
        step = step.next();
        assert!(!seen.contains(&step));
        seen.push(step);
    }
    assert_eq!(step.next(), ProbeStep::RawTriangle);
}

#[test]
fn probe_classifies_callback_cost() {
    assert_eq!(HALF_BUDGET_CYCLES, 160_000);
    assert_eq!(THREE_QUARTER_BUDGET_CYCLES, 240_000);
    assert_eq!(CALLBACK_CYCLES, 320_000);
    assert_eq!(classify_cycles(0), 1);
    assert_eq!(classify_cycles(159_999), 1);
    assert_eq!(classify_cycles(160_000), 2);
    assert_eq!(classify_cycles(239_999), 2);
    assert_eq!(classify_cycles(240_000), 3);
    assert_eq!(classify_cycles(u32::MAX), 3);
}

#[test]
fn probe_plans_follow_the_documented_steps() {
    assert_eq!(step_plan(ProbeStep::RawTriangle), StepPlan::RawTriangle);
    assert_eq!(
        step_plan(ProbeStep::DefaultEngine),
        StepPlan::SingleEngine {
            patch: ProbePatch::Default,
            volume: ProbeVolume::Default,
            note: 60,
            mode: ProbeMode::DefaultEngine,
        }
    );
    assert_eq!(
        step_plan(ProbeStep::HeavyOne),
        StepPlan::SingleEngine {
            patch: ProbePatch::Heavy,
            volume: ProbeVolume::Heavy,
            note: 48,
            mode: ProbeMode::HeavyEngine,
        }
    );
    assert_eq!(step_plan(ProbeStep::HeavyThree), StepPlan::AddNote { note: 55 });
    assert_eq!(
        step_plan(ProbeStep::HeavyFourEngines),
        StepPlan::Engines { engines: 4, notes_per_engine: 1, volume: ProbeVolume::FourEngines }
    );
    assert_eq!(
        step_plan(ProbeStep::HeavyThreeEnginesFourNotes),
        StepPlan::Engines {
            engines: 3,
            notes_per_engine: 4,
            volume: ProbeVolume::HeavyShared { engines: 3 },
        }
    );
}

#[test]
fn probe_events_for_engines_and_notes() {
    let off: Vec<MixerEvent<f32>> = disable_all();
    assert_eq!(off.len(), 4);
    for (i, e) in off.iter().enumerate() {
        assert_eq!(*e, enabled_event((i + 1) as u8, false));
    }
    let one: Vec<MixerEvent<f32>> = held_notes(3, 1);
    assert_eq!(one, vec![note_on(3, 55)]);
    let four: Vec<MixerEvent<f32>> = held_notes(2, 4);
    assert_eq!(four, vec![note_on(2, 48), note_on(2, 52), note_on(2, 55), note_on(2, 59)]);
    let capped: Vec<MixerEvent<f32>> = held_notes(1, 9);
    assert_eq!(capped.len(), 4);
    assert_eq!(
        note_on::<f32>(1, 60),
        MixerEvent::MidiNoteOn { channel: 1, note: 60, velocity: 100 }
    );
}

#[test]
fn probe_status_keeps_the_worst_result() {
    let mut status = 0;
    for result in [1, 3, 2, 1] {
        status = peak_result(status, result);
    }
    assert_eq!(status, 3);
    assert_eq!(peak_result(2, 1), 2);
    assert_eq!(blink_count(0), 1);
    assert_eq!(blink_count(2), 2);
    assert_eq!(blink_count(7), 3);
}

#[test]
fn loading_a_patch_keeps_routing() {
    let mut router = stone_raft::mixer::Router::new();
    let before: Vec<_> = (0..4).map(|i| router.slot(i)).collect();
    for event in patch_events(2, &sample_params(false), 0.5).as_slice() {
        let deliveries = router.route(*event);
        assert!(deliveries.iter().all(|d| !matches!(d, stone_raft::mixer::Delivery::Silence { .. })));
    }
    let after: Vec<_> = (0..4).map(|i| router.slot(i)).collect();
    assert_eq!(before, after);
}

#[test]
fn linked_envelopes_stay_in_agreement() {
    let mut p = sample_params(true);
    let events = [
        ControlEvent::SetEnvelope { which: EnvelopeId::Amp, times: times(9.0) },
        ControlEvent::PatchEnvelope {
            which: EnvelopeId::Amp,
            field: stone_raft::events::EnvelopeField::Release,
            value: 80.0,
        },
        ControlEvent::SetEnvLink { on: true },
        ControlEvent::EnvCopy,
    ];
    for e in events {
        p.apply(e, 0.0, 1.0);
        assert!(p.env_link);
        assert_eq!(p.filter_env, p.amp_env);
        assert_eq!(p.assignable_env, p.amp_env);
    }
    p.apply(ControlEvent::SetEnvelope { which: EnvelopeId::Filter, times: times(3.0) }, 0.0, 1.0);
    assert!(!p.env_link);
    assert_eq!(p.filter_env, times(3.0));
    assert_eq!(p.amp_env.release_ms, 80.0);
}

#[test]
fn demo_arpeggio_and_button() {
    let steps: Vec<ArpStep<f32>> = play_arpeggio();
    assert_eq!(steps.len(), 17);
    assert_eq!(steps[0], ArpStep::Gate { on: true });
    assert_eq!(steps[1], ArpStep::Send(MixerEvent::MidiNoteOn { channel: 1, note: 60, velocity: 100 }));
    assert_eq!(steps[2], ArpStep::Wait { ms: 1_000 });
    assert_eq!(steps[3], ArpStep::Send(MixerEvent::MidiNoteOff { channel: 1, note: 60 }));
    assert_eq!(steps[4], ArpStep::Gate { on: false });
    assert_eq!(steps[5], ArpStep::Wait { ms: 2_000 });
    assert_eq!(steps[7], ArpStep::Send(MixerEvent::MidiNoteOn { channel: 1, note: 64, velocity: 100 }));
    assert_eq!(steps[13], ArpStep::Send(MixerEvent::MidiNoteOn { channel: 1, note: 67, velocity: 100 }));
    assert_eq!(steps[16], ArpStep::Gate { on: false });
    let mut button = DemoButton::new();
    assert!(!button.on_press());
    assert!(button.on_press());
    assert!(button.on_press());
}

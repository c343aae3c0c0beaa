use stone_raft::events::{
    AdsrTimes, AssignableDest, ControlEvent, EnvelopeField, EnvelopeId, LfoId, LfoWave,
    SubOctaves, Waveform,
};
use stone_raft::params::{param_effects, EngineParams, LfoParams};

fn default_times() -> AdsrTimes<f32> {
    AdsrTimes { attack_ms: 5.0, decay_ms: 100.0, sustain: 0.7, release_ms: 200.0 }
}

fn default_params() -> EngineParams<f32> {
    let lfo = LfoParams {
        dest: AssignableDest::Off,
        amount: 0.0,
        rate_hz: 1.0,
        wave: LfoWave::Sine,
        retrigger: true,
    };
    EngineParams {
        saw_vol: 1.0,
        square_vol: 0.0,
        triangle_vol: 0.0,
        sine_vol: 0.0,
        pulse_width: 0.5,
        cutoff_hz: 2_000.0,
        resonance: 0.2,
        amp_env: default_times(),
        filter_env: default_times(),
        assignable_env: default_times(),
        filter_env_amount: 0.0,
        assignable_amount: 0.0,
        assignable_dest: AssignableDest::Off,
        env_link: false,
        env_vel: 0.0,
        sub_vol: 0.0,
        sub_octaves: SubOctaves::One,
        lfos: [lfo, lfo],
    }
}

fn apply(params: &mut EngineParams<f32>, event: ControlEvent<f32>) {
    let _ = params.apply(event, 0.0, 1.0);
}

fn patch_field(params: &mut EngineParams<f32>, which: EnvelopeId, field: EnvelopeField, value: f32) {
    apply(params, ControlEvent::PatchEnvelope { which, field, value });
}

#[test]
fn envcopy_and_envlink_then_unlink_on_extra_times() {
    let mut params = default_params();
    apply(
        &mut params,
        ControlEvent::SetEnvelope {
            which: EnvelopeId::Amp,
            times: AdsrTimes { attack_ms: 50.0, decay_ms: 80.0, sustain: 0.4, release_ms: 150.0 },
        },
    );

    apply(&mut params, ControlEvent::EnvCopy);
    assert!((params.filter_env.attack_ms - 50.0).abs() < f32::EPSILON);
    assert!((params.filter_env.decay_ms - 80.0).abs() < f32::EPSILON);
    assert!((params.filter_env.sustain - 0.4).abs() < f32::EPSILON);
    assert!((params.filter_env.release_ms - 150.0).abs() < f32::EPSILON);
    assert!((params.assignable_env.attack_ms - 50.0).abs() < f32::EPSILON);
    assert!(!params.env_link);

    apply(&mut params, ControlEvent::SetEnvLink { on: true });
    assert!(params.env_link);
    patch_field(&mut params, EnvelopeId::Amp, EnvelopeField::Attack, 90.0);
    assert!((params.filter_env.attack_ms - 90.0).abs() < f32::EPSILON);
    assert!((params.assignable_env.attack_ms - 90.0).abs() < f32::EPSILON);

    patch_field(&mut params, EnvelopeId::Filter, EnvelopeField::Attack, 12.0);
    assert!(!params.env_link);
    assert!((params.filter_env.attack_ms - 12.0).abs() < f32::EPSILON);
    patch_field(&mut params, EnvelopeId::Amp, EnvelopeField::Attack, 200.0);
    assert!((params.amp_env.attack_ms - 200.0).abs() < f32::EPSILON);
    assert!((params.filter_env.attack_ms - 12.0).abs() < f32::EPSILON);

    apply(&mut params, ControlEvent::SetEnvLink { on: true });
    patch_field(&mut params, EnvelopeId::Assignable, EnvelopeField::Decay, 33.0);
    assert!(!params.env_link);
    assert!((params.assignable_env.decay_ms - 33.0).abs() < f32::EPSILON);
}

#[test]
fn wave_preset_sets_levels_and_zeros_sub() {
    let mut params = default_params();
    apply(&mut params, ControlEvent::SetSubVol { amount: 0.5 });
    apply(&mut params, ControlEvent::SetWave { waveform: Waveform::Triangle });
    assert!((params.saw_vol - 0.0).abs() < f32::EPSILON);
    assert!((params.square_vol - 0.0).abs() < f32::EPSILON);
    assert!((params.triangle_vol - 1.0).abs() < f32::EPSILON);
    assert!((params.sine_vol - 0.0).abs() < f32::EPSILON);
    assert!((params.sub_vol - 0.0).abs() < f32::EPSILON);
}

#[test]
fn param_effects_classify_pulse_and_ordinary_params() {
    let mut params = default_params();
    let pulse = params
        .apply(ControlEvent::SetPulse { width: 0.25 }, 0.0, 1.0)
        .expect("parameter event");
    assert!(pulse.synchronize_pulse_width);
    assert!(!pulse.synchronize_envelopes);

    let ordinary = params
        .apply(ControlEvent::SetCutoff { hz: 800.0 }, 0.0, 1.0)
        .expect("parameter event");
    assert!(!ordinary.synchronize_pulse_width);
    assert!(!ordinary.synchronize_envelopes);
}

#[test]
fn param_effects_classify_every_envelope_update() {
    let mut params = default_params();
    let events = [
        ControlEvent::SetEnvelope { which: EnvelopeId::Amp, times: default_times() },
        ControlEvent::PatchEnvelope {
            which: EnvelopeId::Filter,
            field: EnvelopeField::Attack,
            value: 10.0,
        },
        ControlEvent::EnvCopy,
        ControlEvent::SetEnvLink { on: true },
    ];

    for event in events {
        let effects = params.apply(event, 0.0, 1.0).expect("parameter event");
        assert!(!effects.synchronize_pulse_width);
        assert!(effects.synchronize_envelopes, "event was {event:?}");
    }

    let unlink = params
        .apply(ControlEvent::SetEnvLink { on: false }, 0.0, 1.0)
        .expect("parameter event");
    assert!(!unlink.synchronize_pulse_width);
    assert!(!unlink.synchronize_envelopes);
}

#[test]
fn note_events_report_no_param_effects() {
    let mut params = default_params();
    assert_eq!(params.apply(ControlEvent::NoteOn { note: 60, velocity: 100 }, 0.0, 1.0), None);
    assert_eq!(params.apply(ControlEvent::NoteOff { note: 60 }, 0.0, 1.0), None);
    assert_eq!(params, default_params());
}

#[test]
fn param_effects_without_applying() {
    assert_eq!(param_effects(&ControlEvent::<f32>::NoteOff { note: 1 }), None);
    let e = param_effects(&ControlEvent::<f32>::SetLfoWave { which: LfoId::Two, wave: LfoWave::Saw })
        .expect("parameter event");
    assert!(!e.synchronize_pulse_width && !e.synchronize_envelopes);
}

#[test]
fn lfo_settings_reach_only_their_lfo() {
    let mut params = default_params();
    apply(&mut params, ControlEvent::SetLfoDest { which: LfoId::Two, dest: AssignableDest::Amp });
    apply(&mut params, ControlEvent::SetLfoAmount { which: LfoId::Two, amount: 0.5 });
    apply(&mut params, ControlEvent::SetLfoRate { which: LfoId::Two, rate_hz: 3.0 });
    apply(&mut params, ControlEvent::SetLfoWave { which: LfoId::Two, wave: LfoWave::SampleHold });
    apply(&mut params, ControlEvent::SetLfoRetrig { which: LfoId::Two, on: false });
    assert_eq!(params.lfos[0], default_params().lfos[0]);
    assert_eq!(
        params.lfos[1],
        LfoParams {
            dest: AssignableDest::Amp,
            amount: 0.5,
            rate_hz: 3.0,
            wave: LfoWave::SampleHold,
            retrigger: false,
        }
    );
    assert_eq!(params.lfo(LfoId::Two), params.lfos[1]);
}

#[test]
fn linked_amp_times_move_all_three_envelopes() {
    let mut params = default_params();
    apply(&mut params, ControlEvent::SetEnvLink { on: true });
    let times = AdsrTimes { attack_ms: 1.0, decay_ms: 2.0, sustain: 0.3, release_ms: 4.0 };
    apply(&mut params, ControlEvent::SetEnvelope { which: EnvelopeId::Amp, times });
    assert_eq!(params.amp_env, times);
    assert_eq!(params.filter_env, times);
    assert_eq!(params.assignable_env, times);
    assert!(params.env_link);
    assert_eq!(params.envelope(EnvelopeId::Assignable), times);
}

#[test]
fn numbered_settings_are_stored_as_given() {
    let mut params = default_params();
    apply(&mut params, ControlEvent::SetCutoff { hz: 640.0 });
    apply(&mut params, ControlEvent::SetResonance { amount: 0.5 });
    apply(&mut params, ControlEvent::SetFilterEnvAmount { amount: -3.0 });
    apply(&mut params, ControlEvent::SetAssignableDest { dest: AssignableDest::Pitch });
    apply(&mut params, ControlEvent::SetAssignableAmount { amount: 1.5 });
    apply(&mut params, ControlEvent::SetEnvVel { amount: 0.25 });
    apply(&mut params, ControlEvent::SetSubOct { octaves: SubOctaves::Two });
    assert_eq!(params.cutoff_hz, 640.0);
    assert_eq!(params.resonance, 0.5);
    assert_eq!(params.filter_env_amount, -3.0);
    assert_eq!(params.assignable_dest, AssignableDest::Pitch);
    assert_eq!(params.assignable_amount, 1.5);
    assert_eq!(params.env_vel, 0.25);
    assert_eq!(params.sub_octaves, SubOctaves::Two);
    assert_eq!(params.sub_octaves.as_u8(), 2);
    assert_eq!(SubOctaves::One.as_u8(), 1);
}

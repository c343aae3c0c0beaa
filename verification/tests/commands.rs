use stone_raft::commands::{parse_line_commands, CommandState, PrintAfter};
use stone_raft::events::{
    AdsrTimes, AssignableDest, ControlEvent, EnvelopeField, EnvelopeId, InstanceEvent, LfoId,
    LfoWave, MixerEvent, SubOctaves, Waveform,
};
use stone_raft::mixer::Delivery;
use stone_raft::params::{EngineParams, LfoParams};
use stone_raft::params_cmd::parse_param_command;

fn num(text: &str) -> f32 {
    text.parse::<f32>().expect("parsed numbers are valid f32 text")
}

fn default_params() -> EngineParams<f32> {
    let times = AdsrTimes { attack_ms: 5.0, decay_ms: 100.0, sustain: 0.7, release_ms: 200.0 };
    let lfo = LfoParams {
        dest: AssignableDest::Off,
        amount: 0.0,
        rate_hz: 1.0,
        wave: LfoWave::Sine,
        retrigger: true,
    };
    EngineParams {
        saw_vol: 1.0,
        square_vol: 0.0,
        triangle_vol: 0.0,
        sine_vol: 0.0,
        pulse_width: 0.5,
        cutoff_hz: 2_000.0,
        resonance: 0.2,
        amp_env: times,
        filter_env: times,
        assignable_env: times,
        filter_env_amount: 0.0,
        assignable_amount: 0.0,
        assignable_dest: AssignableDest::Off,
        env_link: false,
        env_vel: 0.0,
        sub_vol: 0.0,
        sub_octaves: SubOctaves::One,
        lfos: [lfo, lfo],
    }
}

fn to_f32(event: ControlEvent<String>) -> ControlEvent<f32> {
    match event {
        ControlEvent::NoteOn { note, velocity } => ControlEvent::NoteOn { note, velocity },
        ControlEvent::NoteOff { note } => ControlEvent::NoteOff { note },
        ControlEvent::SetCutoff { hz } => ControlEvent::SetCutoff { hz: num(&hz) },
        ControlEvent::SetLfoRate { which, rate_hz } => {
            ControlEvent::SetLfoRate { which, rate_hz: num(&rate_hz) }
        }
        ControlEvent::SetSubVol { amount } => ControlEvent::SetSubVol { amount: num(&amount) },
        ControlEvent::SetSubOct { octaves } => ControlEvent::SetSubOct { octaves },
        other => panic!("not used in these tests: {other:?}"),
    }
}

/// Applies a command's deliveries to host-side copies of the engine params.
fn apply_to_copies(copies: &mut [EngineParams<f32>; 4], deliveries: Vec<Delivery<String>>) {
    for d in deliveries {
        if let Delivery::Control { index, event } = d {
            copies[index].apply(to_f32(event), 0.0, 1.0);
        }
    }
}

#[test]
fn commands_parses_cutoff_and_wave() {
    match parse_param_command("cutoff 800").unwrap() {
        Some(ControlEvent::SetCutoff { hz }) => assert!((num(&hz) - 800.0).abs() < f32::EPSILON),
        other => panic!("unexpected {other:?}"),
    }
    match parse_param_command("wave square").unwrap() {
        Some(ControlEvent::SetWave { waveform: Waveform::Square }) => {}
        other => panic!("unexpected {other:?}"),
    }
    match parse_param_command("wave tri").unwrap() {
        Some(ControlEvent::SetWave { waveform: Waveform::Triangle }) => {}
        other => panic!("unexpected {other:?}"),
    }
    match parse_param_command("wave sin").unwrap() {
        Some(ControlEvent::SetWave { waveform: Waveform::Sine }) => {}
        other => panic!("unexpected {other:?}"),
    }
    match parse_param_command("sawvol 0.5").unwrap() {
        Some(ControlEvent::SetSawVol { amount }) => {
            assert!((num(&amount) - 0.5).abs() < f32::EPSILON)
        }
        other => panic!("unexpected {other:?}"),
    }
    match parse_param_command("saw 0.6").unwrap() {
        Some(ControlEvent::SetSawVol { amount }) => {
            assert!((num(&amount) - 0.6).abs() < f32::EPSILON)
        }
        other => panic!("unexpected {other:?}"),
    }
    match parse_param_command("sq 0.4").unwrap() {
        Some(ControlEvent::SetSquareVol { amount }) => {
            assert!((num(&amount) - 0.4).abs() < f32::EPSILON)
        }
        other => panic!("unexpected {other:?}"),
    }
    match parse_param_command("tri 0.3").unwrap() {
        Some(ControlEvent::SetTriangleVol { amount }) => {
            assert!((num(&amount) - 0.3).abs() < f32::EPSILON)
        }
        other => panic!("unexpected {other:?}"),
    }
    match parse_param_command("sin 0.2").unwrap() {
        Some(ControlEvent::SetSineVol { amount }) => {
            assert!((num(&amount) - 0.2).abs() < f32::EPSILON)
        }
        other => panic!("unexpected {other:?}"),
    }
    match parse_param_command("sawv 0.3").unwrap() {
        Some(ControlEvent::SetSawVol { amount }) => {
            assert!((num(&amount) - 0.3).abs() < f32::EPSILON)
        }
        other => panic!("unexpected {other:?}"),
    }
    match parse_param_command("sqvol 0.7").unwrap() {
        Some(ControlEvent::SetSquareVol { amount }) => {
            assert!((num(&amount) - 0.7).abs() < f32::EPSILON)
        }
        other => panic!("unexpected {other:?}"),
    }
    match parse_param_command("trivol 0.2").unwrap() {
        Some(ControlEvent::SetTriangleVol { amount }) => {
            assert!((num(&amount) - 0.2).abs() < f32::EPSILON)
        }
        other => panic!("unexpected {other:?}"),
    }
    match parse_param_command("sinvol 0.8").unwrap() {
        Some(ControlEvent::SetSineVol { amount }) => {
            assert!((num(&amount) - 0.8).abs() < f32::EPSILON)
        }
        other => panic!("unexpected {other:?}"),
    }
    match parse_param_command("pulse 0.25").unwrap() {
        Some(ControlEvent::SetPulse { width }) => {
            assert!((num(&width) - 0.25).abs() < f32::EPSILON)
        }
        other => panic!("unexpected {other:?}"),
    }
    match parse_param_command("pw 0.35").unwrap() {
        Some(ControlEvent::SetPulse { width }) => {
            assert!((num(&width) - 0.35).abs() < f32::EPSILON)
        }
        other => panic!("unexpected {other:?}"),
    }
    match parse_param_command("subvol 0.4").unwrap() {
        Some(ControlEvent::SetSubVol { amount }) => {
            assert!((num(&amount) - 0.4).abs() < f32::EPSILON)
        }
        other => panic!("unexpected {other:?}"),
    }
    match parse_param_command("sub 0.5").unwrap() {
        Some(ControlEvent::SetSubVol { amount }) => {
            assert!((num(&amount) - 0.5).abs() < f32::EPSILON)
        }
        other => panic!("unexpected {other:?}"),
    }
    match parse_param_command("suboct 2").unwrap() {
        Some(ControlEvent::SetSubOct { octaves: SubOctaves::Two }) => {}
        other => panic!("unexpected {other:?}"),
    }
    match parse_param_command("suboct 1").unwrap() {
        Some(ControlEvent::SetSubOct { octaves: SubOctaves::One }) => {}
        other => panic!("unexpected {other:?}"),
    }
    assert!(parse_param_command("suboct 3").is_err());
    assert!(parse_param_command("suboct 0").is_err());
}

#[test]
fn parses_envelope_time_commands_as_patches() {
    match parse_param_command("attack 12").unwrap() {
        Some(ControlEvent::PatchEnvelope {
            which: EnvelopeId::Amp,
            field: EnvelopeField::Attack,
            value,
        }) => assert!((num(&value) - 12.0).abs() < f32::EPSILON),
        other => panic!("unexpected {other:?}"),
    }
    match parse_param_command("filtenvattack 50").unwrap() {
        Some(ControlEvent::PatchEnvelope {
            which: EnvelopeId::Filter,
            field: EnvelopeField::Attack,
            value,
        }) => assert!((num(&value) - 50.0).abs() < f32::EPSILON),
        other => panic!("unexpected {other:?}"),
    }
    match parse_param_command("env3decay 80").unwrap() {
        Some(ControlEvent::PatchEnvelope {
            which: EnvelopeId::Assignable,
            field: EnvelopeField::Decay,
            value,
        }) => assert!((num(&value) - 80.0).abs() < f32::EPSILON),
        other => panic!("unexpected {other:?}"),
    }
    match parse_param_command("amp a 15").unwrap() {
        Some(ControlEvent::PatchEnvelope {
            which: EnvelopeId::Amp,
            field: EnvelopeField::Attack,
            value,
        }) => assert!((num(&value) - 15.0).abs() < f32::EPSILON),
        other => panic!("unexpected {other:?}"),
    }
    match parse_param_command("fenv s 0.4").unwrap() {
        Some(ControlEvent::PatchEnvelope {
            which: EnvelopeId::Filter,
            field: EnvelopeField::Sustain,
            value,
        }) => assert!((num(&value) - 0.4).abs() < f32::EPSILON),
        other => panic!("unexpected {other:?}"),
    }
    match parse_param_command("asenv r 120").unwrap() {
        Some(ControlEvent::PatchEnvelope {
            which: EnvelopeId::Assignable,
            field: EnvelopeField::Release,
            value,
        }) => assert!((num(&value) - 120.0).abs() < f32::EPSILON),
        other => panic!("unexpected {other:?}"),
    }
}

#[test]
fn commands_rejects_unknown_command() {
    assert!(parse_param_command("foo 1").is_err());
}

#[test]
fn parses_filtenvamt_signed() {
    match parse_param_command("filtenvamt -2.5").unwrap() {
        Some(ControlEvent::SetFilterEnvAmount { amount }) => {
            assert!((num(&amount) + 2.5).abs() < f32::EPSILON)
        }
        other => panic!("unexpected {other:?}"),
    }
    match parse_param_command("fenv amt 1.5").unwrap() {
        Some(ControlEvent::SetFilterEnvAmount { amount }) => {
            assert!((num(&amount) - 1.5).abs() < f32::EPSILON)
        }
        other => panic!("unexpected {other:?}"),
    }
}

#[test]
fn parses_env3dest_tokens_and_alias() {
    let cases = [
        ("env3dest off", AssignableDest::Off),
        ("env3dest res", AssignableDest::Resonance),
        ("env3dest resonance", AssignableDest::Resonance),
        ("env3dest pitch", AssignableDest::Pitch),
        ("env3dest cutoff", AssignableDest::Cutoff),
        ("asenv dest pitch", AssignableDest::Pitch),
        ("asenv dest pw", AssignableDest::PulseWidth),
        ("asenv dest pulse", AssignableDest::PulseWidth),
        ("asenv dest pwm", AssignableDest::PulseWidth),
        ("asenv dest amp", AssignableDest::Amp),
    ];
    for (line, expected) in cases {
        match parse_param_command(line).unwrap() {
            Some(ControlEvent::SetAssignableDest { dest }) => assert_eq!(dest, expected),
            other => panic!("unexpected {other:?}"),
        }
    }
    match parse_param_command("asenv amt -1.25").unwrap() {
        Some(ControlEvent::SetAssignableAmount { amount }) => {
            assert!((num(&amount) + 1.25).abs() < f32::EPSILON)
        }
        other => panic!("unexpected {other:?}"),
    }
}

#[test]
fn rejects_unknown_env3dest() {
    let err = parse_param_command("env3dest foo").unwrap_err();
    assert!(err.contains("unknown dest"));
}

#[test]
fn parses_envcopy_and_envlink() {
    match parse_param_command("envcopy").unwrap() {
        Some(ControlEvent::EnvCopy) => {}
        other => panic!("unexpected {other:?}"),
    }
    assert!(parse_param_command("envcopy extra").is_err());
    match parse_param_command("envlink on").unwrap() {
        Some(ControlEvent::SetEnvLink { on: true }) => {}
        other => panic!("unexpected {other:?}"),
    }
    match parse_param_command("envlink off").unwrap() {
        Some(ControlEvent::SetEnvLink { on: false }) => {}
        other => panic!("unexpected {other:?}"),
    }
    assert!(parse_param_command("envlink maybe").is_err());
    match parse_param_command("env copy").unwrap() {
        Some(ControlEvent::EnvCopy) => {}
        other => panic!("unexpected {other:?}"),
    }
    match parse_param_command("env link on").unwrap() {
        Some(ControlEvent::SetEnvLink { on: true }) => {}
        other => panic!("unexpected {other:?}"),
    }
    match parse_param_command("env vel 0.75").unwrap() {
        Some(ControlEvent::SetEnvVel { amount }) => {
            assert!((num(&amount) - 0.75).abs() < f32::EPSILON)
        }
        other => panic!("unexpected {other:?}"),
    }
}

#[test]
fn rejects_random_with_extra_args() {
    assert!(parse_line_commands("random extra", 1).is_err());
}

#[test]
fn random_command_asks_for_a_patch_on_the_current_engine() {
    let parsed = parse_line_commands("random", 3).unwrap().expect("random is a command");
    assert!(parsed.switch_current.is_none());
    assert!(parsed.events.is_empty());
    assert_eq!(parsed.print, PrintAfter::RandomPatch { instance: 3 });
}

#[test]
fn eng_2_cutoff_is_oneshot() {
    let mut session = CommandState::new();
    let mut copies = [default_params(); 4];
    assert_eq!(session.current_engine_number(), 1);
    let parsed = parse_line_commands("eng 2 cutoff 800", session.current_engine_number())
        .unwrap()
        .expect("command");
    assert!(parsed.switch_current.is_none());
    match parsed.events.as_slice() {
        [MixerEvent::ToInstance {
            instance: 2,
            event: InstanceEvent::Engine(ControlEvent::SetCutoff { hz }),
        }] => assert!((num(hz) - 800.0).abs() < f32::EPSILON),
        other => panic!("unexpected {other:?}"),
    }
    let deliveries = session.apply_parsed(parsed);
    apply_to_copies(&mut copies, deliveries);
    assert_eq!(session.current_engine_number(), 1);
    assert!((copies[1].cutoff_hz - 800.0).abs() < f32::EPSILON);
}

#[test]
fn glued_eng2_errors() {
    assert!(parse_line_commands("eng2", 1).is_err());
    assert!(parse_line_commands("eng2 cutoff 800", 1).is_err());
}

#[test]
fn eng_out_of_range_errors() {
    assert!(parse_line_commands("eng 0", 1).is_err());
    assert!(parse_line_commands("eng 5", 1).is_err());
}

#[test]
fn ch_out_of_range_errors() {
    assert!(parse_line_commands("ch 0", 1).is_err());
    assert!(parse_line_commands("ch 17", 1).is_err());
}

#[test]
fn eng_2_random_keeps_current_engine_and_routing() {
    let mut session = CommandState::new();
    let parsed = parse_line_commands("eng 2 random", 1).unwrap().expect("random");
    assert!(parsed.switch_current.is_none());
    assert_eq!(parsed.print, PrintAfter::RandomPatch { instance: 2 });
    let deliveries = session.apply_parsed(parsed);
    assert!(deliveries.is_empty());
    assert_eq!(session.current_engine_number(), 1);
    assert!(!session.slot(1).enabled);
    assert_eq!(session.slot(1).listen_channel, 2);
}

#[test]
fn parses_lfo_commands_and_aliases() {
    match parse_param_command("lfo 1 dest pitch").unwrap() {
        Some(ControlEvent::SetLfoDest { which: LfoId::One, dest: AssignableDest::Pitch }) => {}
        other => panic!("unexpected {other:?}"),
    }
    match parse_param_command("lfo 2 dest pw").unwrap() {
        Some(ControlEvent::SetLfoDest { which: LfoId::Two, dest: AssignableDest::PulseWidth }) => {}
        other => panic!("unexpected {other:?}"),
    }
    match parse_param_command("lfo 1 amt -0.25").unwrap() {
        Some(ControlEvent::SetLfoAmount { which: LfoId::One, amount }) => {
            assert!((num(&amount) + 0.25).abs() < f32::EPSILON)
        }
        other => panic!("unexpected {other:?}"),
    }
    match parse_param_command("lfo 2 rate 4").unwrap() {
        Some(ControlEvent::SetLfoRate { which: LfoId::Two, rate_hz }) => {
            assert!((num(&rate_hz) - 4.0).abs() < f32::EPSILON)
        }
        other => panic!("unexpected {other:?}"),
    }
    match parse_param_command("lfo 1 wave triangle").unwrap() {
        Some(ControlEvent::SetLfoWave { which: LfoId::One, wave: LfoWave::Triangle }) => {}
        other => panic!("unexpected {other:?}"),
    }
    match parse_param_command("lfo 1 wave sq").unwrap() {
        Some(ControlEvent::SetLfoWave { which: LfoId::One, wave: LfoWave::Square }) => {}
        other => panic!("unexpected {other:?}"),
    }
    match parse_param_command("lfo 2 wave snh").unwrap() {
        Some(ControlEvent::SetLfoWave { which: LfoId::Two, wave: LfoWave::SampleHold }) => {}
        other => panic!("unexpected {other:?}"),
    }
    match parse_param_command("lfo 1 retrig off").unwrap() {
        Some(ControlEvent::SetLfoRetrig { which: LfoId::One, on: false }) => {}
        other => panic!("unexpected {other:?}"),
    }
    match parse_param_command("lfo 2 retrig on").unwrap() {
        Some(ControlEvent::SetLfoRetrig { which: LfoId::Two, on: true }) => {}
        other => panic!("unexpected {other:?}"),
    }
}

#[test]
fn glued_lfo1_errors() {
    match parse_line_commands("lfo1 dest pitch", 1) {
        Err(err) => assert!(err.contains("lfo N")),
        Ok(_) => panic!("glued lfo1 should error"),
    }
    assert!(parse_line_commands("lfo1", 1).is_err());
    assert!(parse_line_commands("eng 2 lfo1 rate 4", 1).is_err());
}

#[test]
fn eng_2_lfo_1_rate_is_oneshot() {
    let mut session = CommandState::new();
    let mut copies = [default_params(); 4];
    let parsed = parse_line_commands("eng 2 lfo 1 rate 4", session.current_engine_number())
        .unwrap()
        .expect("command");
    assert!(parsed.switch_current.is_none());
    match parsed.events.as_slice() {
        [MixerEvent::ToInstance {
            instance: 2,
            event: InstanceEvent::Engine(ControlEvent::SetLfoRate { which: LfoId::One, rate_hz }),
        }] => assert!((num(rate_hz) - 4.0).abs() < f32::EPSILON),
        other => panic!("unexpected {other:?}"),
    }
    let deliveries = session.apply_parsed(parsed);
    apply_to_copies(&mut copies, deliveries);
    assert_eq!(session.current_engine_number(), 1);
    assert!((copies[1].lfos[0].rate_hz - 4.0).abs() < f32::EPSILON);
}

#[test]
fn sub_and_suboct_reach_the_current_engine_copy() {
    let mut session = CommandState::new();
    let mut copies = [default_params(); 4];
    let parsed = parse_line_commands("sub 0.35", 1).unwrap().expect("sub");
    let deliveries = session.apply_parsed(parsed);
    apply_to_copies(&mut copies, deliveries);
    let parsed = parse_line_commands("suboct 2", 1).unwrap().expect("suboct");
    let deliveries = session.apply_parsed(parsed);
    apply_to_copies(&mut copies, deliveries);
    assert!((copies[0].sub_vol - 0.35).abs() < f32::EPSILON);
    assert_eq!(copies[0].sub_octaves, SubOctaves::Two);
}

#[test]
fn bare_eng_switches_and_reports_status() {
    let mut session = CommandState::new();
    let parsed = parse_line_commands("eng 3", 1).unwrap().expect("eng 3");
    assert_eq!(parsed.switch_current, Some(3));
    assert_eq!(parsed.print, PrintAfter::Status);
    let _ = session.apply_parsed(parsed);
    assert_eq!(session.current_engine_number(), 3);
    let status = parse_line_commands("eng", 3).unwrap().expect("eng");
    assert_eq!(status.switch_current, None);
    assert_eq!(status.print, PrintAfter::Status);
}

#[test]
fn routing_commands_update_the_state_copy() {
    let mut session = CommandState::new();
    let on = parse_line_commands("eng 2 on", 1).unwrap().expect("on");
    assert!(session.apply_parsed(on).is_empty());
    assert!(session.slot(1).enabled);
    let ch = parse_line_commands("eng 2 ch 9", 1).unwrap().expect("ch");
    assert!(session.apply_parsed(ch).is_empty());
    assert_eq!(session.slot(1).listen_channel, 9);
    let off = parse_line_commands("eng 2 off", 1).unwrap().expect("off");
    match session.apply_parsed(off).as_slice() {
        [Delivery::Silence { index: 1 }] => {}
        other => panic!("unexpected {other:?}"),
    }
    assert!(!session.slot(1).enabled);
    let vol = parse_line_commands("vol 0.5", 1).unwrap().expect("vol");
    match session.apply_parsed(vol).as_slice() {
        [Delivery::Volume { index: 0, amount }] => assert_eq!(amount.as_str(), "0.5"),
        other => panic!("unexpected {other:?}"),
    }
}

#[test]
fn command_errors_carry_the_host_messages() {
    assert_eq!(parse_line_commands("eng2", 1).unwrap_err(), "use 'eng N' with a space (for example eng 2)");
    assert_eq!(parse_line_commands("on now", 1).unwrap_err(), "too many arguments");
    assert_eq!(parse_line_commands("ch", 1).unwrap_err(), "ch needs a channel 1 through 16");
    assert_eq!(parse_line_commands("vol", 1).unwrap_err(), "vol needs a number");
    assert_eq!(
        parse_line_commands("vol loud", 1).unwrap_err(),
        "could not parse 'loud' as a number for vol"
    );
    assert!(parse_line_commands("", 1).unwrap().is_none());
    assert_eq!(parse_param_command("").unwrap(), None);
}

#[test]
fn number_arguments_follow_float_syntax() {
    for good in ["1", "-2.5", "+3.", ".5", "1e3", "2.5E-2", "inf", "-NaN", "infinity"] {
        assert!(parse_param_command(&format!("cutoff {good}")).is_ok(), "{good}");
    }
    for bad in ["", "1.2.3", "e3", "1e", "--1", "0x10", "1_000", "."] {
        if bad.is_empty() {
            continue;
        }
        assert!(parse_param_command(&format!("cutoff {bad}")).is_err(), "{bad}");
    }
}

#[test]
fn show_asks_for_a_replayable_patch() {
    let parsed = parse_line_commands("eng 4 show", 1).unwrap().expect("show");
    assert_eq!(parsed.print, PrintAfter::Show { instance: 4 });
    assert!(parsed.events.is_empty());
}

#[test]
fn report_lines_replay_as_one_shot_commands() {
    let line = stone_raft::report::qualified(3, "lfo 2 wave sh");
    let parsed = parse_line_commands(line.trim(), 1).unwrap().expect("command");
    assert!(parsed.switch_current.is_none());
    match parsed.events.as_slice() {
        [MixerEvent::ToInstance {
            instance: 3,
            event: InstanceEvent::Engine(ControlEvent::SetLfoWave { which: LfoId::Two, wave: LfoWave::SampleHold }),
        }] => {}
        other => panic!("unexpected {other:?}"),
    }
}

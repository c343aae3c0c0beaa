use stone_raft::args::{
    is_glued_eng_token, is_glued_lfo_token, parse_assignable_dest, parse_engine_number,
    parse_listen_channel, parse_lfo_id, parse_lfo_wave, parse_on_off, single_optional_arg,
    single_required_arg, expect_no_args,
};
use stone_raft::events::{AssignableDest, LfoId, LfoWave, Waveform};
use stone_raft::single_engine::{parse_single_engine_command, parse_single_engine_midi, SingleEngineEvent};
use stone_raft::report::{assignable_dest_name, lfo_wave_name, qualified, qualify_block};
use stone_raft::select::{is_quit_line, parse_choice};
use stone_raft::text::{split_words, to_lower, trim_text};

fn words(list: &[&str]) -> Vec<String> {
    list.iter().map(|s| s.to_string()).collect()
}

#[test]
fn main_parses_cutoff_and_wave() {
    match parse_single_engine_command("cutoff 800").unwrap() {
        Some(SingleEngineEvent::SetCutoff { hz }) => {
            assert!((hz.parse::<f32>().unwrap() - 800.0).abs() < f32::EPSILON)
        }
        other => panic!("unexpected {other:?}"),
    }
    match parse_single_engine_command("wave square").unwrap() {
        Some(SingleEngineEvent::SetWave { waveform: Waveform::Square }) => {}
        other => panic!("unexpected {other:?}"),
    }
}

#[test]
fn main_rejects_unknown_command() {
    assert!(parse_single_engine_command("foo 1").is_err());
}

#[test]
fn single_engine_commands_and_messages() {
    assert_eq!(parse_single_engine_command("").unwrap(), None);
    assert_eq!(
        parse_single_engine_command("SUSTAIN 0.5").unwrap(),
        Some(SingleEngineEvent::SetSustain { level: "0.5".to_string() })
    );
    assert_eq!(
        parse_single_engine_command("resonance .3").unwrap(),
        Some(SingleEngineEvent::SetResonance { amount: ".3".to_string() })
    );
    assert_eq!(parse_single_engine_command("attack 1 2").unwrap_err(), "too many arguments");
    assert_eq!(parse_single_engine_command("decay").unwrap_err(), "decay needs a number");
    assert_eq!(
        parse_single_engine_command("release soon").unwrap_err(),
        "could not parse 'soon' as a number for release"
    );
    assert_eq!(parse_single_engine_command("wave").unwrap_err(), "wave needs saw or square");
    assert_eq!(
        parse_single_engine_command("wave Sine").unwrap_err(),
        "unknown wave 'sine' (use saw or square)"
    );
    assert_eq!(
        parse_single_engine_command("Foo 1").unwrap_err(),
        "unknown command 'foo' (cutoff, res, attack, decay, sustain, release, wave)"
    );
    assert_eq!(parse_single_engine_command("  ").unwrap_err(), "expected a command");
}

#[test]
fn single_engine_midi_ignores_channel() {
    assert_eq!(
        parse_single_engine_midi::<f32>(&[0x93, 64, 90]),
        Some(SingleEngineEvent::NoteOn { note: 64, velocity: 90 })
    );
    assert_eq!(parse_single_engine_midi::<f32>(&[0x93, 64, 0]), Some(SingleEngineEvent::NoteOff { note: 64 }));
    assert_eq!(parse_single_engine_midi::<f32>(&[0x8A, 64]), Some(SingleEngineEvent::NoteOff { note: 64 }));
    assert_eq!(parse_single_engine_midi::<f32>(&[0xC0, 1, 2]), None);
    assert_eq!(parse_single_engine_midi::<f32>(&[0x90]), None);
}

#[test]
fn report_names_match_command_words() {
    assert_eq!(assignable_dest_name(AssignableDest::Off), "off");
    assert_eq!(assignable_dest_name(AssignableDest::Resonance), "res");
    assert_eq!(assignable_dest_name(AssignableDest::Pitch), "pitch");
    assert_eq!(assignable_dest_name(AssignableDest::Cutoff), "cutoff");
    assert_eq!(assignable_dest_name(AssignableDest::PulseWidth), "pw");
    assert_eq!(assignable_dest_name(AssignableDest::Amp), "amp");
    assert_eq!(lfo_wave_name(LfoWave::Sine), "sine");
    assert_eq!(lfo_wave_name(LfoWave::Triangle), "tri");
    assert_eq!(lfo_wave_name(LfoWave::Square), "square");
    assert_eq!(lfo_wave_name(LfoWave::Saw), "saw");
    assert_eq!(lfo_wave_name(LfoWave::SampleHold), "sh");
    for dest in [AssignableDest::Off, AssignableDest::Pitch, AssignableDest::PulseWidth] {
        let name = assignable_dest_name(dest).to_string();
        assert_eq!(parse_assignable_dest(&name).unwrap(), dest);
    }
    for wave in [LfoWave::Saw, LfoWave::SampleHold, LfoWave::Triangle] {
        let name = lfo_wave_name(wave).to_string();
        assert_eq!(parse_lfo_wave(&name).unwrap(), wave);
    }
}

#[test]
fn qualified_lines_name_the_engine() {
    assert_eq!(qualified(2, "vol 0.50"), "eng 2 vol 0.50\n");
    assert_eq!(qualified(10, "on"), "eng 10 on\n");
    assert_eq!(qualified(0, ""), "eng 0 \n");
    assert_eq!(
        qualify_block(3, "saw 1.00\n\nsq 0.00\r\nlfo 1 wave sine"),
        "eng 3 saw 1.00\neng 3 sq 0.00\neng 3 lfo 1 wave sine\n"
    );
    assert_eq!(qualify_block(1, ""), "");
    assert_eq!(qualify_block(1, "\n\n"), "");
    assert_eq!(qualify_block(4, "cutoff 800\n"), "eng 4 cutoff 800\n");
}

#[test]
fn choices_and_quit_lines() {
    assert_eq!(parse_choice(" 1 \n", 3), Some(1));
    assert_eq!(parse_choice("+2", 3), Some(2));
    assert_eq!(parse_choice("3", 3), None);
    assert_eq!(parse_choice("-1", 3), None);
    assert_eq!(parse_choice("one", 3), None);
    assert_eq!(parse_choice("", 3), None);
    assert_eq!(parse_choice("0", 0), None);
    assert_eq!(parse_choice("4294967296", usize::MAX), Some(4294967296));
    assert_eq!(parse_choice("99999999999999999999999", usize::MAX), None);
    assert!(is_quit_line("q"));
    assert!(is_quit_line("  Q \r\n"));
    assert!(!is_quit_line("quit"));
    assert!(!is_quit_line(""));
}

#[test]
fn word_helpers() {
    assert_eq!(split_words("  eng\t2  cutoff 800 "), words(&["eng", "2", "cutoff", "800"]));
    assert!(split_words(" \t ").is_empty());
    assert_eq!(to_lower("EnG 2"), "eng 2");
    assert_eq!(trim_text("\t cutoff 800 \n"), "cutoff 800");
    assert_eq!(trim_text("   "), "");
}

#[test]
fn argument_helpers_and_their_errors() {
    assert_eq!(single_optional_arg(&words(&[])).unwrap(), None);
    assert_eq!(single_optional_arg(&words(&["x"])).unwrap().map(|s| s.as_str()), Some("x"));
    assert_eq!(single_optional_arg(&words(&["x", "y"])).unwrap_err(), "too many arguments");
    assert_eq!(single_required_arg(&words(&[]), "needs one").unwrap_err(), "needs one");
    assert_eq!(single_required_arg(&words(&["x"]), "needs one").unwrap(), "x");
    assert!(expect_no_args(&words(&[])).is_ok());
    assert_eq!(expect_no_args(&words(&["x"])).unwrap_err(), "too many arguments");
    assert_eq!(parse_on_off(&"ON".to_string(), "retrig").unwrap(), true);
    assert_eq!(parse_on_off(&"off".to_string(), "retrig").unwrap(), false);
    assert!(parse_on_off(&"maybe".to_string(), "retrig").is_err());
    assert_eq!(parse_lfo_id(&"1".to_string()).unwrap(), LfoId::One);
    assert_eq!(parse_lfo_id(&"2".to_string()).unwrap(), LfoId::Two);
    assert!(parse_lfo_id(&"3".to_string()).is_err());
    assert_eq!(parse_engine_number(&"4".to_string()).unwrap(), 4);
    assert!(parse_engine_number(&"0".to_string()).is_err());
    assert_eq!(parse_listen_channel(&"16".to_string()).unwrap(), 16);
    assert!(parse_listen_channel(&"17".to_string()).is_err());
    assert!(is_glued_eng_token("eng2"));
    assert!(!is_glued_eng_token("eng"));
    assert!(!is_glued_eng_token("engine"));
    assert!(is_glued_lfo_token("lfo1"));
    assert!(!is_glued_lfo_token("lfo"));
}

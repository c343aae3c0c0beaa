//! Parameter commands: one command word and its arguments become one
//! [`ControlEvent`], or the error text the terminal prints.

use vstd::prelude::*;
use crate::args::{
    msg_needs_number, msg_not_number, msg_too_many, parse_assignable_dest, parse_f32_arg,
    parse_grouped_f32_arg, parse_lfo_id, parse_lfo_wave, parse_on_off, parse_single_f32_arg,
    res_view, single_optional_arg, single_required_arg, spec_assignable_dest, spec_f32_arg,
    spec_grouped_f32_arg, spec_lfo_id, spec_lfo_wave, spec_on_off, spec_single_f32_arg,
    spec_single_optional_arg, spec_single_required_arg, text, text3, text4, text5, expect_no_args,
};
use crate::events::{
    AssignableDest, ControlEvent, EnvelopeField, EnvelopeId, LfoId, LfoWave, SubOctaves, Waveform,
};
use crate::text::{is_float_literal, lower_seq, split_words, to_lower, tokens, word_is};

verus! {

/// A parameter command as contracts see it: no event, one event with its
/// numeric arguments as text, or the error text.
pub type ParamResult = Result<Option<ControlEvent<Seq<char>>>, Seq<char>>;

pub open spec fn words_view(args: Seq<String>) -> Seq<Seq<char>> {
    args.map_values(|s: String| s@)
}

/// Wraps a number result into an event.
pub open spec fn with_number(
    r: Result<Seq<char>, Seq<char>>,
    mk: spec_fn(Seq<char>) -> ControlEvent<Seq<char>>,
) -> ParamResult {
    match r {
        Ok(v) => Ok(Some(mk(v))),
        Err(e) => Err(e),
    }
}

/// One envelope field set from an (optional) number argument.
pub open spec fn spec_patch_arg(
    which: EnvelopeId,
    field: EnvelopeField,
    arg: Option<Seq<char>>,
    name: Seq<char>,
) -> ParamResult {
    with_number(
        spec_f32_arg(arg, name),
        |v: Seq<char>| ControlEvent::PatchEnvelope { which, field, value: v },
    )
}

/// A one-word envelope command (`attack 12`) given its arguments.
pub open spec fn spec_envelope_patch(
    which: EnvelopeId,
    field: EnvelopeField,
    args: Seq<Seq<char>>,
    name: Seq<char>,
) -> ParamResult {
    match spec_single_optional_arg(args) {
        Err(e) => Err(e),
        Ok(a) => spec_patch_arg(which, field, a, name),
    }
}

/// `attack 12` and friends: one envelope field from its number argument.
pub fn envelope_patch(which: EnvelopeId, field: EnvelopeField, arg: Option<&String>, name: &str) -> (r:
    Result<Option<ControlEvent<String>>, String>)
    ensures
        res_view(r) == spec_patch_arg(
            which,
            field,
            match arg {
                Some(s) => Some(s@),
                None => None,
            },
            name@,
        ),
{
    let value = parse_f32_arg(arg, name)?;
    Ok(Some(ControlEvent::PatchEnvelope { which, field, value }))
}

pub open spec fn spec_field(f: Seq<char>) -> Option<EnvelopeField> {
    if f == "a"@ {
        Some(EnvelopeField::Attack)
    } else if f == "d"@ {
        Some(EnvelopeField::Decay)
    } else if f == "s"@ {
        Some(EnvelopeField::Sustain)
    } else if f == "r"@ {
        Some(EnvelopeField::Release)
    } else {
        None
    }
}

pub open spec fn spec_grouped_envelope(
    args: Seq<Seq<char>>,
    which: EnvelopeId,
    group: Seq<char>,
) -> ParamResult {
    if args.len() < 2 {
        Err(group + " needs a, d, s, or r followed by a number"@)
    } else if args.len() > 2 {
        Err(msg_too_many())
    } else {
        let f = lower_seq(args[0]);
        match spec_field(f) {
            None => Err("unknown "@ + group + " field '"@ + f + "' (use a, d, s, or r)"@),
            Some(field) => if is_float_literal(args[1]) {
                Ok(Some(ControlEvent::PatchEnvelope { which, field, value: args[1] }))
            } else {
                Err(msg_not_number(args[1], group + " "@ + args[0]))
            },
        }
    }
}

/// `amp a 15`, `fenv s 0.4`, `asenv r 120`: a field letter and a number.
pub fn parse_grouped_envelope(args: &[String], which: EnvelopeId, group: &str) -> (r: Result<
    Option<ControlEvent<String>>,
    String,
>)
    ensures
        res_view(r) == spec_grouped_envelope(words_view(args@), which, group@),
{
    let ghost a = words_view(args@);
    if args.len() < 2 {
        return Err(text(group).concat(" needs a, d, s, or r followed by a number"));
    }
    if args.len() > 2 {
        return Err(text("too many arguments"));
    }
    assert(a[0] == args@[0]@ && a[1] == args@[1]@);
    let low = to_lower(args[0].as_str());
    let f = low.as_str();
    let field = if word_is(f, "a") {
        EnvelopeField::Attack
    } else if word_is(f, "d") {
        EnvelopeField::Decay
    } else if word_is(f, "s") {
        EnvelopeField::Sustain
    } else if word_is(f, "r") {
        EnvelopeField::Release
    } else {
        return Err(text5("unknown ", group, " field '", f, "' (use a, d, s, or r)"));
    };
    let raw = &args[1];
    if crate::text::is_number_word(raw.as_str()) {
        Ok(Some(ControlEvent::PatchEnvelope { which, field, value: raw.clone() }))
    } else {
        let mut m = text4("could not parse '", raw.as_str(), "' as a number for ", group);
        m.append(" ");
        m.append(args[0].as_str());
        assert(m@ == msg_not_number(a[1], group@ + " "@ + a[0]));
        Err(m)
    }
}

pub open spec fn spec_filter_envelope_command(args: Seq<Seq<char>>) -> ParamResult {
    if args.len() > 0 && lower_seq(args[0]) == "amt"@ {
        with_number(
            spec_grouped_f32_arg(args, "fenv amt"@),
            |v: Seq<char>| ControlEvent::SetFilterEnvAmount { amount: v },
        )
    } else {
        spec_grouped_envelope(args, EnvelopeId::Filter, "fenv"@)
    }
}

/// `fenv amt <octaves>` or `fenv a|d|s|r <value>`.
pub fn parse_filter_envelope_command(args: &[String]) -> (r: Result<
    Option<ControlEvent<String>>,
    String,
>)
    ensures
        res_view(r) == spec_filter_envelope_command(words_view(args@)),
{
    let ghost a = words_view(args@);
    if args.len() > 0 {
        assert(a[0] == args@[0]@);
        let low = to_lower(args[0].as_str());
        if word_is(low.as_str(), "amt") {
            let amount = parse_grouped_f32_arg(args, "fenv amt")?;
            return Ok(Some(ControlEvent::SetFilterEnvAmount { amount }));
        }
    }
    parse_grouped_envelope(args, EnvelopeId::Filter, "fenv")
}

pub open spec fn spec_assignable_envelope_command(args: Seq<Seq<char>>) -> ParamResult {
    if args.len() > 0 && lower_seq(args[0]) == "amt"@ {
        with_number(
            spec_grouped_f32_arg(args, "asenv amt"@),
            |v: Seq<char>| ControlEvent::SetAssignableAmount { amount: v },
        )
    } else if args.len() > 0 && lower_seq(args[0]) == "dest"@ {
        if args.len() < 2 {
            Err("asenv dest needs off, res, pitch, cutoff, pw, or amp"@)
        } else if args.len() > 2 {
            Err(msg_too_many())
        } else {
            match spec_assignable_dest(args[1]) {
                Ok(dest) => Ok(Some(ControlEvent::SetAssignableDest { dest })),
                Err(e) => Err(e),
            }
        }
    } else {
        spec_grouped_envelope(args, EnvelopeId::Assignable, "asenv"@)
    }
}

/// `asenv amt <n>`, `asenv dest <name>`, or `asenv a|d|s|r <value>`.
pub fn parse_assignable_envelope_command(args: &[String]) -> (r: Result<
    Option<ControlEvent<String>>,
    String,
>)
    ensures
        res_view(r) == spec_assignable_envelope_command(words_view(args@)),
{
    let ghost a = words_view(args@);
    if args.len() > 0 {
        assert(a[0] == args@[0]@);
        let low = to_lower(args[0].as_str());
        if word_is(low.as_str(), "amt") {
            let amount = parse_grouped_f32_arg(args, "asenv amt")?;
            return Ok(Some(ControlEvent::SetAssignableAmount { amount }));
        }
        if word_is(low.as_str(), "dest") {
            if args.len() < 2 {
                return Err(text("asenv dest needs off, res, pitch, cutoff, pw, or amp"));
            }
            if args.len() > 2 {
                return Err(text("too many arguments"));
            }
            assert(a[1] == args@[1]@);
            let dest = parse_assignable_dest(&args[1])?;
            return Ok(Some(ControlEvent::SetAssignableDest { dest }));
        }
    }
    parse_grouped_envelope(args, EnvelopeId::Assignable, "asenv")
}

pub open spec fn spec_lfo_command(args: Seq<Seq<char>>) -> ParamResult {
    if args.len() < 3 {
        Err("lfo needs 1 or 2, then dest, amt, rate, wave, or retrig"@)
    } else {
        match spec_lfo_id(args[0]) {
            Err(e) => Err(e),
            Ok(which) => {
                let f = lower_seq(args[1]);
                if f == "dest"@ {
                    if args.len() > 3 {
                        Err(msg_too_many())
                    } else {
                        match spec_assignable_dest(args[2]) {
                            Ok(dest) => Ok(Some(ControlEvent::SetLfoDest { which, dest })),
                            Err(e) => Err(e),
                        }
                    }
                } else if f == "amt"@ {
                    if args.len() > 3 {
                        Err(msg_too_many())
                    } else {
                        with_number(
                            spec_f32_arg(Some(args[2]), "lfo amt"@),
                            |v: Seq<char>| ControlEvent::SetLfoAmount { which, amount: v },
                        )
                    }
                } else if f == "rate"@ {
                    if args.len() > 3 {
                        Err(msg_too_many())
                    } else {
                        with_number(
                            spec_f32_arg(Some(args[2]), "lfo rate"@),
                            |v: Seq<char>| ControlEvent::SetLfoRate { which, rate_hz: v },
                        )
                    }
                } else if f == "wave"@ {
                    if args.len() > 3 {
                        Err(msg_too_many())
                    } else {
                        match spec_lfo_wave(args[2]) {
                            Ok(wave) => Ok(Some(ControlEvent::SetLfoWave { which, wave })),
                            Err(e) => Err(e),
                        }
                    }
                } else if f == "retrig"@ {
                    if args.len() > 3 {
                        Err(msg_too_many())
                    } else {
                        match spec_on_off(args[2], "lfo retrig"@) {
                            Ok(on) => Ok(Some(ControlEvent::SetLfoRetrig { which, on })),
                            Err(e) => Err(e),
                        }
                    }
                } else {
                    Err(
                        "unknown lfo field '"@ + f
                            + "' (use dest, amt, rate, wave, or retrig)"@,
                    )
                }
            },
        }
    }
}

/// `lfo 1|2 dest|amt|rate|wave|retrig <value>`.
pub fn parse_lfo_command(args: &[String]) -> (r: Result<Option<ControlEvent<String>>, String>)
    ensures
        res_view(r) == spec_lfo_command(words_view(args@)),
{
    let ghost a = words_view(args@);
    if args.len() < 3 {
        return Err(text("lfo needs 1 or 2, then dest, amt, rate, wave, or retrig"));
    }
    assert(a[0] == args@[0]@ && a[1] == args@[1]@ && a[2] == args@[2]@);
    let which = parse_lfo_id(&args[0])?;
    let low = to_lower(args[1].as_str());
    let f = low.as_str();
    if word_is(f, "dest") {
        if args.len() > 3 {
            return Err(text("too many arguments"));
        }
        let dest = parse_assignable_dest(&args[2])?;
        Ok(Some(ControlEvent::SetLfoDest { which, dest }))
    } else if word_is(f, "amt") {
        if args.len() > 3 {
            return Err(text("too many arguments"));
        }
        let amount = parse_f32_arg(Some(&args[2]), "lfo amt")?;
        Ok(Some(ControlEvent::SetLfoAmount { which, amount }))
    } else if word_is(f, "rate") {
        if args.len() > 3 {
            return Err(text("too many arguments"));
        }
        let rate_hz = parse_f32_arg(Some(&args[2]), "lfo rate")?;
        Ok(Some(ControlEvent::SetLfoRate { which, rate_hz }))
    } else if word_is(f, "wave") {
        if args.len() > 3 {
            return Err(text("too many arguments"));
        }
        let wave = parse_lfo_wave(&args[2])?;
        Ok(Some(ControlEvent::SetLfoWave { which, wave }))
    } else if word_is(f, "retrig") {
        if args.len() > 3 {
            return Err(text("too many arguments"));
        }
        let on = parse_on_off(&args[2], "lfo retrig")?;
        Ok(Some(ControlEvent::SetLfoRetrig { which, on }))
    } else {
        Err(text3("unknown lfo field '", f, "' (use dest, amt, rate, wave, or retrig)"))
    }
}

pub open spec fn spec_shared_envelope_command(args: Seq<Seq<char>>) -> ParamResult {
    if args.len() == 0 {
        Err("env needs copy, link, or vel"@)
    } else {
        let action = lower_seq(args[0]);
        if action == "copy"@ {
            if args.len() > 1 {
                Err(msg_too_many())
            } else {
                Ok(Some(ControlEvent::EnvCopy))
            }
        } else if action == "link"@ {
            if args.len() < 2 {
                Err("env link needs on or off"@)
            } else if args.len() > 2 {
                Err(msg_too_many())
            } else {
                match spec_on_off(args[1], "env link"@) {
                    Ok(on) => Ok(Some(ControlEvent::SetEnvLink { on })),
                    Err(e) => Err(e),
                }
            }
        } else if action == "vel"@ {
            with_number(
                spec_grouped_f32_arg(args, "env vel"@),
                |v: Seq<char>| ControlEvent::SetEnvVel { amount: v },
            )
        } else {
            Err("unknown env action '"@ + action + "' (use copy, link, or vel)"@)
        }
    }
}

/// `env copy`, `env link on|off`, or `env vel <0..1>`.
pub fn parse_shared_envelope_command(args: &[String]) -> (r: Result<
    Option<ControlEvent<String>>,
    String,
>)
    ensures
        res_view(r) == spec_shared_envelope_command(words_view(args@)),
{
    let ghost a = words_view(args@);
    if args.len() == 0 {
        return Err(text("env needs copy, link, or vel"));
    }
    assert(a[0] == args@[0]@);
    let low = to_lower(args[0].as_str());
    let action = low.as_str();
    if word_is(action, "copy") {
        if args.len() > 1 {
            return Err(text("too many arguments"));
        }
        Ok(Some(ControlEvent::EnvCopy))
    } else if word_is(action, "link") {
        if args.len() < 2 {
            return Err(text("env link needs on or off"));
        }
        if args.len() > 2 {
            return Err(text("too many arguments"));
        }
        assert(a[1] == args@[1]@);
        let on = parse_on_off(&args[1], "env link")?;
        Ok(Some(ControlEvent::SetEnvLink { on }))
    } else if word_is(action, "vel") {
        let amount = parse_grouped_f32_arg(args, "env vel")?;
        Ok(Some(ControlEvent::SetEnvVel { amount }))
    } else {
        Err(text3("unknown env action '", action, "' (use copy, link, or vel)"))
    }
}

pub open spec fn spec_wave_name(name: Seq<char>) -> Result<Waveform, Seq<char>> {
    let l = lower_seq(name);
    if l == "saw"@ {
        Ok(Waveform::Saw)
    } else if l == "square"@ || l == "sq"@ {
        Ok(Waveform::Square)
    } else if l == "triangle"@ || l == "tri"@ {
        Ok(Waveform::Triangle)
    } else if l == "sine"@ || l == "sin"@ {
        Ok(Waveform::Sine)
    } else {
        Err("unknown wave '"@ + l + "' (use saw, square, triangle, or sine)"@)
    }
}

/// Oscillator level and filter commands (first part of the command table).
pub open spec fn spec_param_words(cmd: Seq<char>, args: Seq<Seq<char>>) -> ParamResult {
    if cmd == "cutoff"@ {
        with_number(
            spec_single_f32_arg(args, "cutoff"@),
            |v: Seq<char>| ControlEvent::SetCutoff { hz: v },
        )
    } else if cmd == "res"@ || cmd == "resonance"@ {
        with_number(
            spec_single_f32_arg(args, "res"@),
            |v: Seq<char>| ControlEvent::SetResonance { amount: v },
        )
    } else if cmd == "amp"@ {
        spec_grouped_envelope(args, EnvelopeId::Amp, "amp"@)
    } else if cmd == "attack"@ {
        spec_envelope_patch(EnvelopeId::Amp, EnvelopeField::Attack, args, "attack"@)
    } else if cmd == "decay"@ {
        spec_envelope_patch(EnvelopeId::Amp, EnvelopeField::Decay, args, "decay"@)
    } else if cmd == "sustain"@ {
        spec_envelope_patch(EnvelopeId::Amp, EnvelopeField::Sustain, args, "sustain"@)
    } else if cmd == "release"@ {
        spec_envelope_patch(EnvelopeId::Amp, EnvelopeField::Release, args, "release"@)
    } else if cmd == "saw"@ || cmd == "sawvol"@ || cmd == "sawv"@ {
        with_number(
            spec_single_f32_arg(args, "saw"@),
            |v: Seq<char>| ControlEvent::SetSawVol { amount: v },
        )
    } else if cmd == "sq"@ || cmd == "squarevol"@ || cmd == "sqvol"@ {
        with_number(
            spec_single_f32_arg(args, "sq"@),
            |v: Seq<char>| ControlEvent::SetSquareVol { amount: v },
        )
    } else if cmd == "tri"@ || cmd == "trianglevol"@ || cmd == "trivol"@ {
        with_number(
            spec_single_f32_arg(args, "tri"@),
            |v: Seq<char>| ControlEvent::SetTriangleVol { amount: v },
        )
    } else if cmd == "sin"@ || cmd == "sinevol"@ || cmd == "sinvol"@ {
        with_number(
            spec_single_f32_arg(args, "sin"@),
            |v: Seq<char>| ControlEvent::SetSineVol { amount: v },
        )
    } else {
        spec_param_words_shape(cmd, args)
    }
}

/// Wave, pulse, sub, and filter-envelope commands (second part of the table).
pub open spec fn spec_param_words_shape(cmd: Seq<char>, args: Seq<Seq<char>>) -> ParamResult {
    if cmd == "wave"@ {
        match spec_single_required_arg(args, "wave needs saw, square, triangle, or sine"@) {
            Err(e) => Err(e),
            Ok(name) => match spec_wave_name(name) {
                Ok(waveform) => Ok(Some(ControlEvent::SetWave { waveform })),
                Err(e) => Err(e),
            },
        }
    } else if cmd == "pw"@ || cmd == "pulse"@ {
        with_number(
            spec_single_f32_arg(args, "pw"@),
            |v: Seq<char>| ControlEvent::SetPulse { width: v },
        )
    } else if cmd == "sub"@ || cmd == "subvol"@ {
        with_number(
            spec_single_f32_arg(args, "sub"@),
            |v: Seq<char>| ControlEvent::SetSubVol { amount: v },
        )
    } else if cmd == "suboct"@ {
        match spec_single_required_arg(args, "suboct needs 1 or 2"@) {
            Err(e) => Err(e),
            Ok(raw) => if raw == "1"@ {
                Ok(Some(ControlEvent::SetSubOct { octaves: SubOctaves::One }))
            } else if raw == "2"@ {
                Ok(Some(ControlEvent::SetSubOct { octaves: SubOctaves::Two }))
            } else {
                Err("unknown suboct '"@ + raw + "' (use 1 or 2)"@)
            },
        }
    } else if cmd == "fenv"@ {
        spec_filter_envelope_command(args)
    } else if cmd == "filtenvamt"@ {
        with_number(
            spec_single_f32_arg(args, "filtenvamt"@),
            |v: Seq<char>| ControlEvent::SetFilterEnvAmount { amount: v },
        )
    } else if cmd == "filtenvattack"@ {
        spec_envelope_patch(EnvelopeId::Filter, EnvelopeField::Attack, args, "filtenvattack"@)
    } else if cmd == "filtenvdecay"@ {
        spec_envelope_patch(EnvelopeId::Filter, EnvelopeField::Decay, args, "filtenvdecay"@)
    } else if cmd == "filtenvsustain"@ {
        spec_envelope_patch(EnvelopeId::Filter, EnvelopeField::Sustain, args, "filtenvsustain"@)
    } else if cmd == "filtenvrelease"@ {
        spec_envelope_patch(EnvelopeId::Filter, EnvelopeField::Release, args, "filtenvrelease"@)
    } else {
        spec_param_words_mod(cmd, args)
    }
}

/// Assignable envelope, LFO, and shared envelope commands (last part of the table).
pub open spec fn spec_param_words_mod(cmd: Seq<char>, args: Seq<Seq<char>>) -> ParamResult {
    if cmd == "asenv"@ {
        spec_assignable_envelope_command(args)
    } else if cmd == "env3dest"@ {
        match spec_single_required_arg(args, "env3dest needs off, res, pitch, cutoff, pw, or amp"@) {
            Err(e) => Err(e),
            Ok(name) => match spec_assignable_dest(name) {
                Ok(dest) => Ok(Some(ControlEvent::SetAssignableDest { dest })),
                Err(e) => Err(e),
            },
        }
    } else if cmd == "env3amt"@ {
        with_number(
            spec_single_f32_arg(args, "env3amt"@),
            |v: Seq<char>| ControlEvent::SetAssignableAmount { amount: v },
        )
    } else if cmd == "env3attack"@ {
        spec_envelope_patch(EnvelopeId::Assignable, EnvelopeField::Attack, args, "env3attack"@)
    } else if cmd == "env3decay"@ {
        spec_envelope_patch(EnvelopeId::Assignable, EnvelopeField::Decay, args, "env3decay"@)
    } else if cmd == "env3sustain"@ {
        spec_envelope_patch(EnvelopeId::Assignable, EnvelopeField::Sustain, args, "env3sustain"@)
    } else if cmd == "env3release"@ {
        spec_envelope_patch(EnvelopeId::Assignable, EnvelopeField::Release, args, "env3release"@)
    } else if cmd == "lfo"@ {
        spec_lfo_command(args)
    } else if cmd == "env"@ {
        spec_shared_envelope_command(args)
    } else if cmd == "envcopy"@ {
        if args.len() == 0 {
            Ok(Some(ControlEvent::EnvCopy))
        } else {
            Err(msg_too_many())
        }
    } else if cmd == "envlink"@ {
        match spec_single_required_arg(args, "envlink needs on or off"@) {
            Err(e) => Err(e),
            Ok(name) => match spec_on_off(name, "envlink"@) {
                Ok(on) => Ok(Some(ControlEvent::SetEnvLink { on })),
                Err(e) => Err(e),
            },
        }
    } else if cmd == "envvel"@ {
        with_number(
            spec_single_f32_arg(args, "envvel"@),
            |v: Seq<char>| ControlEvent::SetEnvVel { amount: v },
        )
    } else {
        Err(
            "unknown command '"@ + cmd
                + "' (eng, on, off, ch, vol, show, cutoff, res, saw, sq, tri, sin, sub, wave, pw, suboct, amp, fenv, asenv, env, lfo, random)"@,
        )
    }
}

/// The command table for a lowercase command word and its arguments.
pub fn parse_param_words(cmd: &str, args: &[String]) -> (r: Result<
    Option<ControlEvent<String>>,
    String,
>)
    ensures
        res_view(r) == spec_param_words(cmd@, words_view(args@)),
{
    if word_is(cmd, "cutoff") {
        let hz = parse_single_f32_arg(args, "cutoff")?;
        Ok(Some(ControlEvent::SetCutoff { hz }))
    } else if word_is(cmd, "res") || word_is(cmd, "resonance") {
        let amount = parse_single_f32_arg(args, "res")?;
        Ok(Some(ControlEvent::SetResonance { amount }))
    } else if word_is(cmd, "amp") {
        parse_grouped_envelope(args, EnvelopeId::Amp, "amp")
    } else if word_is(cmd, "attack") {
        envelope_patch(EnvelopeId::Amp, EnvelopeField::Attack, single_optional_arg(args)?, "attack")
    } else if word_is(cmd, "decay") {
        envelope_patch(EnvelopeId::Amp, EnvelopeField::Decay, single_optional_arg(args)?, "decay")
    } else if word_is(cmd, "sustain") {
        envelope_patch(EnvelopeId::Amp, EnvelopeField::Sustain, single_optional_arg(args)?, "sustain")
    } else if word_is(cmd, "release") {
        envelope_patch(EnvelopeId::Amp, EnvelopeField::Release, single_optional_arg(args)?, "release")
    } else if word_is(cmd, "saw") || word_is(cmd, "sawvol") || word_is(cmd, "sawv") {
        let amount = parse_single_f32_arg(args, "saw")?;
        Ok(Some(ControlEvent::SetSawVol { amount }))
    } else if word_is(cmd, "sq") || word_is(cmd, "squarevol") || word_is(cmd, "sqvol") {
        let amount = parse_single_f32_arg(args, "sq")?;
        Ok(Some(ControlEvent::SetSquareVol { amount }))
    } else if word_is(cmd, "tri") || word_is(cmd, "trianglevol") || word_is(cmd, "trivol") {
        let amount = parse_single_f32_arg(args, "tri")?;
        Ok(Some(ControlEvent::SetTriangleVol { amount }))
    } else if word_is(cmd, "sin") || word_is(cmd, "sinevol") || word_is(cmd, "sinvol") {
        let amount = parse_single_f32_arg(args, "sin")?;
        Ok(Some(ControlEvent::SetSineVol { amount }))
    } else {
        parse_param_words_shape(cmd, args)
    }
}

fn parse_wave_name(name: &String) -> (r: Result<Waveform, String>)
    ensures
        match r {
            Ok(w) => spec_wave_name(name@) == Ok::<Waveform, Seq<char>>(w),
            Err(e) => spec_wave_name(name@) == Err::<Waveform, Seq<char>>(e@),
        },
{
    let low = to_lower(name.as_str());
    let l = low.as_str();
    if word_is(l, "saw") {
        Ok(Waveform::Saw)
    } else if word_is(l, "square") || word_is(l, "sq") {
        Ok(Waveform::Square)
    } else if word_is(l, "triangle") || word_is(l, "tri") {
        Ok(Waveform::Triangle)
    } else if word_is(l, "sine") || word_is(l, "sin") {
        Ok(Waveform::Sine)
    } else {
        Err(text3("unknown wave '", l, "' (use saw, square, triangle, or sine)"))
    }
}

fn parse_param_words_shape(cmd: &str, args: &[String]) -> (r: Result<
    Option<ControlEvent<String>>,
    String,
>)
    ensures
        res_view(r) == spec_param_words_shape(cmd@, words_view(args@)),
{
    if word_is(cmd, "wave") {
        let name = single_required_arg(args, "wave needs saw, square, triangle, or sine")?;
        let waveform = parse_wave_name(name)?;
        Ok(Some(ControlEvent::SetWave { waveform }))
    } else if word_is(cmd, "pw") || word_is(cmd, "pulse") {
        let width = parse_single_f32_arg(args, "pw")?;
        Ok(Some(ControlEvent::SetPulse { width }))
    } else if word_is(cmd, "sub") || word_is(cmd, "subvol") {
        let amount = parse_single_f32_arg(args, "sub")?;
        Ok(Some(ControlEvent::SetSubVol { amount }))
    } else if word_is(cmd, "suboct") {
        let raw = single_required_arg(args, "suboct needs 1 or 2")?;
        if word_is(raw.as_str(), "1") {
            Ok(Some(ControlEvent::SetSubOct { octaves: SubOctaves::One }))
        } else if word_is(raw.as_str(), "2") {
            Ok(Some(ControlEvent::SetSubOct { octaves: SubOctaves::Two }))
        } else {
            Err(text3("unknown suboct '", raw.as_str(), "' (use 1 or 2)"))
        }
    } else if word_is(cmd, "fenv") {
        parse_filter_envelope_command(args)
    } else if word_is(cmd, "filtenvamt") {
        let amount = parse_single_f32_arg(args, "filtenvamt")?;
        Ok(Some(ControlEvent::SetFilterEnvAmount { amount }))
    } else if word_is(cmd, "filtenvattack") {
        envelope_patch(EnvelopeId::Filter, EnvelopeField::Attack, single_optional_arg(args)?, "filtenvattack")
    } else if word_is(cmd, "filtenvdecay") {
        envelope_patch(EnvelopeId::Filter, EnvelopeField::Decay, single_optional_arg(args)?, "filtenvdecay")
    } else if word_is(cmd, "filtenvsustain") {
        envelope_patch(EnvelopeId::Filter, EnvelopeField::Sustain, single_optional_arg(args)?, "filtenvsustain")
    } else if word_is(cmd, "filtenvrelease") {
        envelope_patch(EnvelopeId::Filter, EnvelopeField::Release, single_optional_arg(args)?, "filtenvrelease")
    } else {
        parse_param_words_mod(cmd, args)
    }
}

fn parse_param_words_mod(cmd: &str, args: &[String]) -> (r: Result<
    Option<ControlEvent<String>>,
    String,
>)
    ensures
        res_view(r) == spec_param_words_mod(cmd@, words_view(args@)),
{
    if word_is(cmd, "asenv") {
        parse_assignable_envelope_command(args)
    } else if word_is(cmd, "env3dest") {
        let name = single_required_arg(args, "env3dest needs off, res, pitch, cutoff, pw, or amp")?;
        let dest = parse_assignable_dest(name)?;
        Ok(Some(ControlEvent::SetAssignableDest { dest }))
    } else if word_is(cmd, "env3amt") {
        let amount = parse_single_f32_arg(args, "env3amt")?;
        Ok(Some(ControlEvent::SetAssignableAmount { amount }))
    } else if word_is(cmd, "env3attack") {
        envelope_patch(EnvelopeId::Assignable, EnvelopeField::Attack, single_optional_arg(args)?, "env3attack")
    } else if word_is(cmd, "env3decay") {
        envelope_patch(EnvelopeId::Assignable, EnvelopeField::Decay, single_optional_arg(args)?, "env3decay")
    } else if word_is(cmd, "env3sustain") {
        envelope_patch(EnvelopeId::Assignable, EnvelopeField::Sustain, single_optional_arg(args)?, "env3sustain")
    } else if word_is(cmd, "env3release") {
        envelope_patch(EnvelopeId::Assignable, EnvelopeField::Release, single_optional_arg(args)?, "env3release")
    } else if word_is(cmd, "lfo") {
        parse_lfo_command(args)
    } else if word_is(cmd, "env") {
        parse_shared_envelope_command(args)
    } else if word_is(cmd, "envcopy") {
        expect_no_args(args)?;
        Ok(Some(ControlEvent::EnvCopy))
    } else if word_is(cmd, "envlink") {
        let name = single_required_arg(args, "envlink needs on or off")?;
        let on = parse_on_off(name, "envlink")?;
        Ok(Some(ControlEvent::SetEnvLink { on }))
    } else if word_is(cmd, "envvel") {
        let amount = parse_single_f32_arg(args, "envvel")?;
        Ok(Some(ControlEvent::SetEnvVel { amount }))
    } else {
        Err(
            text3(
                "unknown command '",
                cmd,
                "' (eng, on, off, ch, vol, show, cutoff, res, saw, sq, tri, sin, sub, wave, pw, suboct, amp, fenv, asenv, env, lfo, random)",
            ),
        )
    }
}

pub open spec fn spec_param_command(line: Seq<char>) -> ParamResult {
    if line.len() == 0 {
        Ok(None)
    } else if tokens(line).len() == 0 {
        Err("expected a command"@)
    } else {
        spec_param_words(lower_seq(tokens(line)[0]), tokens(line).skip(1))
    }
}

/// Parses one parameter command line (`cutoff 800`, `lfo 1 wave sh`, ...).
///
/// An empty line gives `Ok(None)`. Numeric arguments are returned as their
/// text; each is valid `f32` syntax.
pub fn parse_param_command(line: &str) -> (r: Result<Option<ControlEvent<String>>, String>)
    ensures
        res_view(r) == spec_param_command(line@),
{
    if line.unicode_len() == 0 {
        return Ok(None);
    }
    let words = split_words(line);
    if words.len() == 0 {
        return Err(text("expected a command"));
    }
    let ghost w = words.deep_view();
    assert(w[0] == words@[0]@);
    let cmd = to_lower(words[0].as_str());
    let args = &words.as_slice()[1..words.len()];
    assert(words_view(args@) =~= tokens(line@).skip(1));
    parse_param_words(cmd.as_str(), args)
}

/// Whether every number in an event is text that `f32::from_str` accepts.
pub open spec fn numbers_ok(e: ControlEvent<Seq<char>>) -> bool {
    match e {
        ControlEvent::SetCutoff { hz } => is_float_literal(hz),
        ControlEvent::SetResonance { amount } => is_float_literal(amount),
        ControlEvent::SetSawVol { amount } => is_float_literal(amount),
        ControlEvent::SetSquareVol { amount } => is_float_literal(amount),
        ControlEvent::SetTriangleVol { amount } => is_float_literal(amount),
        ControlEvent::SetSineVol { amount } => is_float_literal(amount),
        ControlEvent::SetPulse { width } => is_float_literal(width),
        ControlEvent::SetEnvelope { times, .. } => {
            &&& is_float_literal(times.attack_ms)
            &&& is_float_literal(times.decay_ms)
            &&& is_float_literal(times.sustain)
            &&& is_float_literal(times.release_ms)
        },
        ControlEvent::PatchEnvelope { value, .. } => is_float_literal(value),
        ControlEvent::SetFilterEnvAmount { amount } => is_float_literal(amount),
        ControlEvent::SetAssignableAmount { amount } => is_float_literal(amount),
        ControlEvent::SetLfoAmount { amount, .. } => is_float_literal(amount),
        ControlEvent::SetLfoRate { rate_hz, .. } => is_float_literal(rate_hz),
        ControlEvent::SetEnvVel { amount } => is_float_literal(amount),
        ControlEvent::SetSubVol { amount } => is_float_literal(amount),
        _ => true,
    }
}

/// Every parameter command that parses carries only valid `f32` text, so a
/// host can always read its numbers.
pub proof fn lemma_param_numbers_ok(cmd: Seq<char>, args: Seq<Seq<char>>)
    ensures
        spec_param_words(cmd, args) matches Ok(Some(e)) ==> numbers_ok(e),
{
}

/// The command words of the parameter table: their lengths, and that words
/// of equal length differ (so each word selects its own table entry).
proof fn lemma_command_words()
    ensures
        "1"@.len() == 1,
        "2"@.len() == 1,
        "a"@.len() == 1,
        "amp"@.len() == 3,
        "amt"@.len() == 3,
        "asenv"@.len() == 5,
        "attack"@.len() == 6,
        "cutoff"@.len() == 6,
        "d"@.len() == 1,
        "decay"@.len() == 5,
        "dest"@.len() == 4,
        "env"@.len() == 3,
        "env3amt"@.len() == 7,
        "env3attack"@.len() == 10,
        "env3decay"@.len() == 9,
        "env3dest"@.len() == 8,
        "env3release"@.len() == 11,
        "env3sustain"@.len() == 11,
        "envcopy"@.len() == 7,
        "envlink"@.len() == 7,
        "envvel"@.len() == 6,
        "fenv"@.len() == 4,
        "filtenvamt"@.len() == 10,
        "filtenvattack"@.len() == 13,
        "filtenvdecay"@.len() == 12,
        "filtenvrelease"@.len() == 14,
        "filtenvsustain"@.len() == 14,
        "lfo"@.len() == 3,
        "pulse"@.len() == 5,
        "pw"@.len() == 2,
        "r"@.len() == 1,
        "release"@.len() == 7,
        "res"@.len() == 3,
        "resonance"@.len() == 9,
        "s"@.len() == 1,
        "saw"@.len() == 3,
        "sawv"@.len() == 4,
        "sawvol"@.len() == 6,
        "sin"@.len() == 3,
        "sinevol"@.len() == 7,
        "sinvol"@.len() == 6,
        "sq"@.len() == 2,
        "squarevol"@.len() == 9,
        "sqvol"@.len() == 5,
        "sub"@.len() == 3,
        "suboct"@.len() == 6,
        "subvol"@.len() == 6,
        "sustain"@.len() == 7,
        "tri"@.len() == 3,
        "trianglevol"@.len() == 11,
        "trivol"@.len() == 6,
        "wave"@.len() == 4,
        "1"@ != "2"@,
        "1"@ != "a"@,
        "1"@ != "d"@,
        "1"@ != "r"@,
        "1"@ != "s"@,
        "2"@ != "a"@,
        "2"@ != "d"@,
        "2"@ != "r"@,
        "2"@ != "s"@,
        "a"@ != "d"@,
        "a"@ != "r"@,
        "a"@ != "s"@,
        "amp"@ != "amt"@,
        "amp"@ != "env"@,
        "amp"@ != "lfo"@,
        "amp"@ != "res"@,
        "amp"@ != "saw"@,
        "amp"@ != "sin"@,
        "amp"@ != "sub"@,
        "amp"@ != "tri"@,
        "amt"@ != "env"@,
        "amt"@ != "lfo"@,
        "amt"@ != "res"@,
        "amt"@ != "saw"@,
        "amt"@ != "sin"@,
        "amt"@ != "sub"@,
        "amt"@ != "tri"@,
        "asenv"@ != "decay"@,
        "asenv"@ != "pulse"@,
        "asenv"@ != "sqvol"@,
        "attack"@ != "cutoff"@,
        "attack"@ != "envvel"@,
        "attack"@ != "sawvol"@,
        "attack"@ != "sinvol"@,
        "attack"@ != "suboct"@,
        "attack"@ != "subvol"@,
        "attack"@ != "trivol"@,
        "cutoff"@ != "envvel"@,
        "cutoff"@ != "sawvol"@,
        "cutoff"@ != "sinvol"@,
        "cutoff"@ != "suboct"@,
        "cutoff"@ != "subvol"@,
        "cutoff"@ != "trivol"@,
        "d"@ != "r"@,
        "d"@ != "s"@,
        "decay"@ != "pulse"@,
        "decay"@ != "sqvol"@,
        "dest"@ != "fenv"@,
        "dest"@ != "sawv"@,
        "dest"@ != "wave"@,
        "env"@ != "lfo"@,
        "env"@ != "res"@,
        "env"@ != "saw"@,
        "env"@ != "sin"@,
        "env"@ != "sub"@,
        "env"@ != "tri"@,
        "env3amt"@ != "envcopy"@,
        "env3amt"@ != "envlink"@,
        "env3amt"@ != "release"@,
        "env3amt"@ != "sinevol"@,
        "env3amt"@ != "sustain"@,
        "env3attack"@ != "filtenvamt"@,
        "env3decay"@ != "resonance"@,
        "env3decay"@ != "squarevol"@,
        "env3release"@ != "env3sustain"@,
        "env3release"@ != "trianglevol"@,
        "env3sustain"@ != "trianglevol"@,
        "envcopy"@ != "envlink"@,
        "envcopy"@ != "release"@,
        "envcopy"@ != "sinevol"@,
        "envcopy"@ != "sustain"@,
        "envlink"@ != "release"@,
        "envlink"@ != "sinevol"@,
        "envlink"@ != "sustain"@,
        "envvel"@ != "sawvol"@,
        "envvel"@ != "sinvol"@,
        "envvel"@ != "suboct"@,
        "envvel"@ != "subvol"@,
        "envvel"@ != "trivol"@,
        "fenv"@ != "sawv"@,
        "fenv"@ != "wave"@,
        "filtenvrelease"@ != "filtenvsustain"@,
        "lfo"@ != "res"@,
        "lfo"@ != "saw"@,
        "lfo"@ != "sin"@,
        "lfo"@ != "sub"@,
        "lfo"@ != "tri"@,
        "pulse"@ != "sqvol"@,
        "pw"@ != "sq"@,
        "r"@ != "s"@,
        "release"@ != "sinevol"@,
        "release"@ != "sustain"@,
        "res"@ != "saw"@,
        "res"@ != "sin"@,
        "res"@ != "sub"@,
        "res"@ != "tri"@,
        "resonance"@ != "squarevol"@,
        "saw"@ != "sin"@,
        "saw"@ != "sub"@,
        "saw"@ != "tri"@,
        "sawv"@ != "wave"@,
        "sawvol"@ != "sinvol"@,
        "sawvol"@ != "suboct"@,
        "sawvol"@ != "subvol"@,
        "sawvol"@ != "trivol"@,
        "sin"@ != "sub"@,
        "sin"@ != "tri"@,
        "sinevol"@ != "sustain"@,
        "sinvol"@ != "suboct"@,
        "sinvol"@ != "subvol"@,
        "sinvol"@ != "trivol"@,
        "sub"@ != "tri"@,
        "suboct"@ != "subvol"@,
        "suboct"@ != "trivol"@,
        "subvol"@ != "trivol"@,
{
    reveal_strlit("1");
    reveal_strlit("2");
    reveal_strlit("a");
    reveal_strlit("amp");
    reveal_strlit("amt");
    reveal_strlit("asenv");
    reveal_strlit("attack");
    reveal_strlit("cutoff");
    reveal_strlit("d");
    reveal_strlit("decay");
    reveal_strlit("dest");
    reveal_strlit("env");
    reveal_strlit("env3amt");
    reveal_strlit("env3attack");
    reveal_strlit("env3decay");
    reveal_strlit("env3dest");
    reveal_strlit("env3release");
    reveal_strlit("env3sustain");
    reveal_strlit("envcopy");
    reveal_strlit("envlink");
    reveal_strlit("envvel");
    reveal_strlit("fenv");
    reveal_strlit("filtenvamt");
    reveal_strlit("filtenvattack");
    reveal_strlit("filtenvdecay");
    reveal_strlit("filtenvrelease");
    reveal_strlit("filtenvsustain");
    reveal_strlit("lfo");
    reveal_strlit("pulse");
    reveal_strlit("pw");
    reveal_strlit("r");
    reveal_strlit("release");
    reveal_strlit("res");
    reveal_strlit("resonance");
    reveal_strlit("s");
    reveal_strlit("saw");
    reveal_strlit("sawv");
    reveal_strlit("sawvol");
    reveal_strlit("sin");
    reveal_strlit("sinevol");
    reveal_strlit("sinvol");
    reveal_strlit("sq");
    reveal_strlit("squarevol");
    reveal_strlit("sqvol");
    reveal_strlit("sub");
    reveal_strlit("suboct");
    reveal_strlit("subvol");
    reveal_strlit("sustain");
    reveal_strlit("tri");
    reveal_strlit("trianglevol");
    reveal_strlit("trivol");
    reveal_strlit("wave");
    assert("1"@[0] != "2"@[0]);
    assert("1"@[0] != "a"@[0]);
    assert("1"@[0] != "d"@[0]);
    assert("1"@[0] != "r"@[0]);
    assert("1"@[0] != "s"@[0]);
    assert("2"@[0] != "a"@[0]);
    assert("2"@[0] != "d"@[0]);
    assert("2"@[0] != "r"@[0]);
    assert("2"@[0] != "s"@[0]);
    assert("a"@[0] != "d"@[0]);
    assert("a"@[0] != "r"@[0]);
    assert("a"@[0] != "s"@[0]);
    assert("amp"@[2] != "amt"@[2]);
    assert("amp"@[0] != "env"@[0]);
    assert("amp"@[0] != "lfo"@[0]);
    assert("amp"@[0] != "res"@[0]);
    assert("amp"@[0] != "saw"@[0]);
    assert("amp"@[0] != "sin"@[0]);
    assert("amp"@[0] != "sub"@[0]);
    assert("amp"@[0] != "tri"@[0]);
    assert("amt"@[0] != "env"@[0]);
    assert("amt"@[0] != "lfo"@[0]);
    assert("amt"@[0] != "res"@[0]);
    assert("amt"@[0] != "saw"@[0]);
    assert("amt"@[0] != "sin"@[0]);
    assert("amt"@[0] != "sub"@[0]);
    assert("amt"@[0] != "tri"@[0]);
    assert("asenv"@[0] != "decay"@[0]);
    assert("asenv"@[0] != "pulse"@[0]);
    assert("asenv"@[0] != "sqvol"@[0]);
    assert("attack"@[0] != "cutoff"@[0]);
    assert("attack"@[0] != "envvel"@[0]);
    assert("attack"@[0] != "sawvol"@[0]);
    assert("attack"@[0] != "sinvol"@[0]);
    assert("attack"@[0] != "suboct"@[0]);
    assert("attack"@[0] != "subvol"@[0]);
    assert("attack"@[0] != "trivol"@[0]);
    assert("cutoff"@[0] != "envvel"@[0]);
    assert("cutoff"@[0] != "sawvol"@[0]);
    assert("cutoff"@[0] != "sinvol"@[0]);
    assert("cutoff"@[0] != "suboct"@[0]);
    assert("cutoff"@[0] != "subvol"@[0]);
    assert("cutoff"@[0] != "trivol"@[0]);
    assert("d"@[0] != "r"@[0]);
    assert("d"@[0] != "s"@[0]);
    assert("decay"@[0] != "pulse"@[0]);
    assert("decay"@[0] != "sqvol"@[0]);
    assert("dest"@[0] != "fenv"@[0]);
    assert("dest"@[0] != "sawv"@[0]);
    assert("dest"@[0] != "wave"@[0]);
    assert("env"@[0] != "lfo"@[0]);
    assert("env"@[0] != "res"@[0]);
    assert("env"@[0] != "saw"@[0]);
    assert("env"@[0] != "sin"@[0]);
    assert("env"@[0] != "sub"@[0]);
    assert("env"@[0] != "tri"@[0]);
    assert("env3amt"@[3] != "envcopy"@[3]);
    assert("env3amt"@[3] != "envlink"@[3]);
    assert("env3amt"@[0] != "release"@[0]);
    assert("env3amt"@[0] != "sinevol"@[0]);
    assert("env3amt"@[0] != "sustain"@[0]);
    assert("env3attack"@[0] != "filtenvamt"@[0]);
    assert("env3decay"@[0] != "resonance"@[0]);
    assert("env3decay"@[0] != "squarevol"@[0]);
    assert("env3release"@[4] != "env3sustain"@[4]);
    assert("env3release"@[0] != "trianglevol"@[0]);
    assert("env3sustain"@[0] != "trianglevol"@[0]);
    assert("envcopy"@[3] != "envlink"@[3]);
    assert("envcopy"@[0] != "release"@[0]);
    assert("envcopy"@[0] != "sinevol"@[0]);
    assert("envcopy"@[0] != "sustain"@[0]);
    assert("envlink"@[0] != "release"@[0]);
    assert("envlink"@[0] != "sinevol"@[0]);
    assert("envlink"@[0] != "sustain"@[0]);
    assert("envvel"@[0] != "sawvol"@[0]);
    assert("envvel"@[0] != "sinvol"@[0]);
    assert("envvel"@[0] != "suboct"@[0]);
    assert("envvel"@[0] != "subvol"@[0]);
    assert("envvel"@[0] != "trivol"@[0]);
    assert("fenv"@[0] != "sawv"@[0]);
    assert("fenv"@[0] != "wave"@[0]);
    assert("filtenvrelease"@[7] != "filtenvsustain"@[7]);
    assert("lfo"@[0] != "res"@[0]);
    assert("lfo"@[0] != "saw"@[0]);
    assert("lfo"@[0] != "sin"@[0]);
    assert("lfo"@[0] != "sub"@[0]);
    assert("lfo"@[0] != "tri"@[0]);
    assert("pulse"@[0] != "sqvol"@[0]);
    assert("pw"@[0] != "sq"@[0]);
    assert("r"@[0] != "s"@[0]);
    assert("release"@[0] != "sinevol"@[0]);
    assert("release"@[0] != "sustain"@[0]);
    assert("res"@[0] != "saw"@[0]);
    assert("res"@[0] != "sin"@[0]);
    assert("res"@[0] != "sub"@[0]);
    assert("res"@[0] != "tri"@[0]);
    assert("resonance"@[0] != "squarevol"@[0]);
    assert("saw"@[1] != "sin"@[1]);
    assert("saw"@[1] != "sub"@[1]);
    assert("saw"@[0] != "tri"@[0]);
    assert("sawv"@[0] != "wave"@[0]);
    assert("sawvol"@[1] != "sinvol"@[1]);
    assert("sawvol"@[1] != "suboct"@[1]);
    assert("sawvol"@[1] != "subvol"@[1]);
    assert("sawvol"@[0] != "trivol"@[0]);
    assert("sin"@[1] != "sub"@[1]);
    assert("sin"@[0] != "tri"@[0]);
    assert("sinevol"@[1] != "sustain"@[1]);
    assert("sinvol"@[1] != "suboct"@[1]);
    assert("sinvol"@[1] != "subvol"@[1]);
    assert("sinvol"@[0] != "trivol"@[0]);
    assert("sub"@[0] != "tri"@[0]);
    assert("suboct"@[3] != "subvol"@[3]);
    assert("suboct"@[0] != "trivol"@[0]);
    assert("subvol"@[0] != "trivol"@[0]);
}

/// A command that sets one field of one envelope to the number `v`.
pub open spec fn patched(which: EnvelopeId, field: EnvelopeField, v: Seq<char>) -> ParamResult {
    Ok(Some(ControlEvent::PatchEnvelope { which, field, value: v }))
}

/// Each one-word envelope time command sets the field its name says, on the
/// envelope its prefix names: `attack`, `decay`, `sustain`, `release` set
/// the amp envelope's attack, decay, sustain, and release; `filtenv*` the
/// filter envelope's; `env3*` the assignable envelope's. The number is
/// passed on as given.
#[verifier::rlimit(40)]
pub proof fn lemma_amp_time_words(v: Seq<char>)
    requires
        is_float_literal(v),
    ensures
        spec_param_words("attack"@, seq![v]) == patched(EnvelopeId::Amp, EnvelopeField::Attack, v),
        spec_param_words("decay"@, seq![v]) == patched(EnvelopeId::Amp, EnvelopeField::Decay, v),
        spec_param_words("sustain"@, seq![v]) == patched(EnvelopeId::Amp, EnvelopeField::Sustain, v),
        spec_param_words("release"@, seq![v]) == patched(EnvelopeId::Amp, EnvelopeField::Release, v),
{
    lemma_command_words();
}

/// The filter envelope's one-word time commands (`filtenvattack` ...).
#[verifier::rlimit(40)]
pub proof fn lemma_filter_time_words(v: Seq<char>)
    requires
        is_float_literal(v),
    ensures
        spec_param_words("filtenvattack"@, seq![v]) == patched(EnvelopeId::Filter, EnvelopeField::Attack, v),
        spec_param_words("filtenvdecay"@, seq![v]) == patched(EnvelopeId::Filter, EnvelopeField::Decay, v),
        spec_param_words("filtenvsustain"@, seq![v]) == patched(EnvelopeId::Filter, EnvelopeField::Sustain, v),
        spec_param_words("filtenvrelease"@, seq![v]) == patched(EnvelopeId::Filter, EnvelopeField::Release, v),
{
    lemma_command_words();
}

/// The assignable envelope's one-word time commands (`env3attack` ...).
#[verifier::rlimit(40)]
pub proof fn lemma_assignable_time_words(v: Seq<char>)
    requires
        is_float_literal(v),
    ensures
        spec_param_words("env3attack"@, seq![v]) == patched(EnvelopeId::Assignable, EnvelopeField::Attack, v),
        spec_param_words("env3decay"@, seq![v]) == patched(EnvelopeId::Assignable, EnvelopeField::Decay, v),
        spec_param_words("env3sustain"@, seq![v]) == patched(EnvelopeId::Assignable, EnvelopeField::Sustain, v),
        spec_param_words("env3release"@, seq![v]) == patched(EnvelopeId::Assignable, EnvelopeField::Release, v),
{
    lemma_command_words();
}

/// The grouped forms do the same by letter: `amp`, `fenv`, and `asenv`
/// followed by `a`, `d`, `s`, or `r` and a number set attack, decay,
/// sustain, or release of the amp, filter, or assignable envelope.
#[verifier::rlimit(40)]
pub proof fn lemma_envelope_letter_words(v: Seq<char>)
    requires
        is_float_literal(v),
    ensures
        spec_param_words("amp"@, seq!["a"@, v]) == patched(EnvelopeId::Amp, EnvelopeField::Attack, v),
        spec_param_words("amp"@, seq!["d"@, v]) == patched(EnvelopeId::Amp, EnvelopeField::Decay, v),
        spec_param_words("amp"@, seq!["s"@, v]) == patched(EnvelopeId::Amp, EnvelopeField::Sustain, v),
        spec_param_words("amp"@, seq!["r"@, v]) == patched(EnvelopeId::Amp, EnvelopeField::Release, v),
        spec_param_words("fenv"@, seq!["a"@, v]) == patched(EnvelopeId::Filter, EnvelopeField::Attack, v),
        spec_param_words("fenv"@, seq!["d"@, v]) == patched(EnvelopeId::Filter, EnvelopeField::Decay, v),
        spec_param_words("fenv"@, seq!["s"@, v]) == patched(EnvelopeId::Filter, EnvelopeField::Sustain, v),
        spec_param_words("fenv"@, seq!["r"@, v]) == patched(EnvelopeId::Filter, EnvelopeField::Release, v),
        spec_param_words("asenv"@, seq!["a"@, v]) == patched(EnvelopeId::Assignable, EnvelopeField::Attack, v),
        spec_param_words("asenv"@, seq!["d"@, v]) == patched(EnvelopeId::Assignable, EnvelopeField::Decay, v),
        spec_param_words("asenv"@, seq!["s"@, v]) == patched(EnvelopeId::Assignable, EnvelopeField::Sustain, v),
        spec_param_words("asenv"@, seq!["r"@, v]) == patched(EnvelopeId::Assignable, EnvelopeField::Release, v),
{
    lemma_command_words();
    reveal_strlit("a");
    reveal_strlit("d");
    reveal_strlit("s");
    reveal_strlit("r");
    assert(lower_seq("a"@) =~= "a"@);
    assert(lower_seq("d"@) =~= "d"@);
    assert(lower_seq("s"@) =~= "s"@);
    assert(lower_seq("r"@) =~= "r"@);
}

/// A whole line `release <v>` (any case, any spacing) sets the amp release,
/// and likewise `attack`, `decay`, and `sustain`.
pub proof fn lemma_amp_time_lines(line: Seq<char>)
    requires
        line.len() > 0,
        tokens(line).len() == 2,
        is_float_literal(tokens(line)[1]),
    ensures
        lower_seq(tokens(line)[0]) == "attack"@ ==> spec_param_command(line) == patched(
            EnvelopeId::Amp,
            EnvelopeField::Attack,
            tokens(line)[1],
        ),
        lower_seq(tokens(line)[0]) == "decay"@ ==> spec_param_command(line) == patched(
            EnvelopeId::Amp,
            EnvelopeField::Decay,
            tokens(line)[1],
        ),
        lower_seq(tokens(line)[0]) == "sustain"@ ==> spec_param_command(line) == patched(
            EnvelopeId::Amp,
            EnvelopeField::Sustain,
            tokens(line)[1],
        ),
        lower_seq(tokens(line)[0]) == "release"@ ==> spec_param_command(line) == patched(
            EnvelopeId::Amp,
            EnvelopeField::Release,
            tokens(line)[1],
        ),
{
    let v = tokens(line)[1];
    lemma_amp_time_words(v);
    assert(tokens(line).skip(1) =~= seq![v]);
}

/// A command that produces the one event `e`.
pub open spec fn gives(e: ControlEvent<Seq<char>>) -> ParamResult {
    Ok(Some(e))
}

/// Each oscillator level command sets the level of the oscillator it names
/// to the number given: `saw`, `sawvol`, `sawv` the saw; `sq`, `squarevol`,
/// `sqvol` the square; `tri`, `trianglevol`, `trivol` the triangle; `sin`,
/// `sinevol`, `sinvol` the sine; `sub`, `subvol` the sub oscillator.
#[verifier::rlimit(60)]
pub proof fn lemma_level_words(v: Seq<char>)
    requires
        is_float_literal(v),
    ensures
        spec_param_words("saw"@, seq![v]) == gives(ControlEvent::SetSawVol { amount: v }),
        spec_param_words("sawvol"@, seq![v]) == gives(ControlEvent::SetSawVol { amount: v }),
        spec_param_words("sawv"@, seq![v]) == gives(ControlEvent::SetSawVol { amount: v }),
        spec_param_words("sq"@, seq![v]) == gives(ControlEvent::SetSquareVol { amount: v }),
        spec_param_words("squarevol"@, seq![v]) == gives(ControlEvent::SetSquareVol { amount: v }),
        spec_param_words("sqvol"@, seq![v]) == gives(ControlEvent::SetSquareVol { amount: v }),
        spec_param_words("tri"@, seq![v]) == gives(ControlEvent::SetTriangleVol { amount: v }),
        spec_param_words("trianglevol"@, seq![v]) == gives(
            ControlEvent::SetTriangleVol { amount: v },
        ),
        spec_param_words("trivol"@, seq![v]) == gives(ControlEvent::SetTriangleVol { amount: v }),
        spec_param_words("sin"@, seq![v]) == gives(ControlEvent::SetSineVol { amount: v }),
        spec_param_words("sinevol"@, seq![v]) == gives(ControlEvent::SetSineVol { amount: v }),
        spec_param_words("sinvol"@, seq![v]) == gives(ControlEvent::SetSineVol { amount: v }),
        spec_param_words("sub"@, seq![v]) == gives(ControlEvent::SetSubVol { amount: v }),
        spec_param_words("subvol"@, seq![v]) == gives(ControlEvent::SetSubVol { amount: v }),
{
    lemma_command_words();
}

/// The filter, pulse, and modulation amount commands set what they name:
/// `cutoff` the cutoff, `res` and `resonance` the resonance, `pw` and
/// `pulse` the pulse width, `filtenvamt` and `fenv amt` the filter envelope
/// amount, `env3amt` and `asenv amt` the assignable envelope amount,
/// `envvel` and `env vel` the velocity amount.
#[verifier::rlimit(60)]
pub proof fn lemma_amount_words(v: Seq<char>)
    requires
        is_float_literal(v),
    ensures
        spec_param_words("cutoff"@, seq![v]) == gives(ControlEvent::SetCutoff { hz: v }),
        spec_param_words("res"@, seq![v]) == gives(ControlEvent::SetResonance { amount: v }),
        spec_param_words("resonance"@, seq![v]) == gives(ControlEvent::SetResonance { amount: v }),
        spec_param_words("pw"@, seq![v]) == gives(ControlEvent::SetPulse { width: v }),
        spec_param_words("pulse"@, seq![v]) == gives(ControlEvent::SetPulse { width: v }),
        spec_param_words("filtenvamt"@, seq![v]) == gives(
            ControlEvent::SetFilterEnvAmount { amount: v },
        ),
        spec_param_words("fenv"@, seq!["amt"@, v]) == gives(
            ControlEvent::SetFilterEnvAmount { amount: v },
        ),
        spec_param_words("env3amt"@, seq![v]) == gives(
            ControlEvent::SetAssignableAmount { amount: v },
        ),
        spec_param_words("asenv"@, seq!["amt"@, v]) == gives(
            ControlEvent::SetAssignableAmount { amount: v },
        ),
        spec_param_words("envvel"@, seq![v]) == gives(ControlEvent::SetEnvVel { amount: v }),
        spec_param_words("env"@, seq!["vel"@, v]) == gives(ControlEvent::SetEnvVel { amount: v }),
{
    lemma_command_words();
    reveal_strlit("amt");
    reveal_strlit("vel");
    reveal_strlit("copy");
    reveal_strlit("link");
    assert(lower_seq("amt"@) =~= "amt"@);
    assert(lower_seq("vel"@) =~= "vel"@);
    assert("vel"@[0] != "copy"@[0]);
    assert("vel"@[0] != "link"@[0]);
}

/// The value words of the parameter commands (wave, destination, switch,
/// LFO field, and envelope action names): their lengths, that the field
/// words are lowercase, and that names of equal length differ.
proof fn lemma_value_words()
    ensures
        "sq"@.len() == 2,
        "pw"@.len() == 2,
        "on"@.len() == 2,
        "sh"@.len() == 2,
        "saw"@.len() == 3,
        "tri"@.len() == 3,
        "sin"@.len() == 3,
        "off"@.len() == 3,
        "res"@.len() == 3,
        "pwm"@.len() == 3,
        "amp"@.len() == 3,
        "snh"@.len() == 3,
        "amt"@.len() == 3,
        "vel"@.len() == 3,
        "sine"@.len() == 4,
        "dest"@.len() == 4,
        "rate"@.len() == 4,
        "wave"@.len() == 4,
        "copy"@.len() == 4,
        "link"@.len() == 4,
        "pitch"@.len() == 5,
        "pulse"@.len() == 5,
        "square"@.len() == 6,
        "cutoff"@.len() == 6,
        "retrig"@.len() == 6,
        "triangle"@.len() == 8,
        "resonance"@.len() == 9,
        lower_seq("amt"@) == "amt"@,
        lower_seq("vel"@) == "vel"@,
        lower_seq("dest"@) == "dest"@,
        lower_seq("rate"@) == "rate"@,
        lower_seq("wave"@) == "wave"@,
        lower_seq("retrig"@) == "retrig"@,
        lower_seq("copy"@) == "copy"@,
        lower_seq("link"@) == "link"@,
        "saw"@ != "tri"@,
        "saw"@ != "sin"@,
        "tri"@ != "sin"@,
        "off"@ != "res"@,
        "off"@ != "pwm"@,
        "off"@ != "amp"@,
        "res"@ != "pwm"@,
        "res"@ != "amp"@,
        "pwm"@ != "amp"@,
        "pitch"@ != "pulse"@,
        "tri"@ != "snh"@,
        "saw"@ != "snh"@,
        "sq"@ != "sh"@,
        "dest"@ != "rate"@,
        "dest"@ != "wave"@,
        "rate"@ != "wave"@,
        "copy"@ != "link"@,
        "sq"@ != "pw"@,
        "square"@ != "cutoff"@,
        "square"@ != "retrig"@,
        "cutoff"@ != "retrig"@,
        "sine"@ != "dest"@,
        "sine"@ != "rate"@,
        "sine"@ != "wave"@,
        "on"@ != "sq"@,
        "on"@ != "pw"@,
        "on"@ != "sh"@,
        "pw"@ != "sh"@,
{
    reveal_strlit("sq");
    reveal_strlit("pw");
    reveal_strlit("on");
    reveal_strlit("sh");
    reveal_strlit("saw");
    reveal_strlit("tri");
    reveal_strlit("sin");
    reveal_strlit("off");
    reveal_strlit("res");
    reveal_strlit("pwm");
    reveal_strlit("amp");
    reveal_strlit("snh");
    reveal_strlit("amt");
    reveal_strlit("vel");
    reveal_strlit("sine");
    reveal_strlit("dest");
    reveal_strlit("rate");
    reveal_strlit("wave");
    reveal_strlit("copy");
    reveal_strlit("link");
    reveal_strlit("pitch");
    reveal_strlit("pulse");
    reveal_strlit("square");
    reveal_strlit("cutoff");
    reveal_strlit("retrig");
    reveal_strlit("triangle");
    reveal_strlit("resonance");
    assert(lower_seq("amt"@) =~= "amt"@);
    assert(lower_seq("vel"@) =~= "vel"@);
    assert(lower_seq("dest"@) =~= "dest"@);
    assert(lower_seq("rate"@) =~= "rate"@);
    assert(lower_seq("wave"@) =~= "wave"@);
    assert(lower_seq("retrig"@) =~= "retrig"@);
    assert(lower_seq("copy"@) =~= "copy"@);
    assert(lower_seq("link"@) =~= "link"@);
    assert("saw"@[0] != "tri"@[0]);
    assert("saw"@[1] != "sin"@[1]);
    assert("tri"@[0] != "sin"@[0]);
    assert("off"@[0] != "res"@[0]);
    assert("off"@[0] != "pwm"@[0]);
    assert("off"@[0] != "amp"@[0]);
    assert("res"@[0] != "pwm"@[0]);
    assert("res"@[0] != "amp"@[0]);
    assert("pwm"@[0] != "amp"@[0]);
    assert("pitch"@[1] != "pulse"@[1]);
    assert("tri"@[0] != "snh"@[0]);
    assert("saw"@[1] != "snh"@[1]);
    assert("sq"@[1] != "sh"@[1]);
    assert("dest"@[0] != "rate"@[0]);
    assert("dest"@[0] != "wave"@[0]);
    assert("rate"@[0] != "wave"@[0]);
    assert("copy"@[0] != "link"@[0]);
    assert("sq"@[0] != "pw"@[0]);
    assert("square"@[0] != "cutoff"@[0]);
    assert("square"@[0] != "retrig"@[0]);
    assert("cutoff"@[0] != "retrig"@[0]);
    assert("sine"@[0] != "dest"@[0]);
    assert("sine"@[0] != "rate"@[0]);
    assert("sine"@[0] != "wave"@[0]);
    assert("on"@[0] != "sq"@[0]);
    assert("on"@[0] != "pw"@[0]);
    assert("on"@[0] != "sh"@[0]);
    assert("pw"@[0] != "sh"@[0]);
}

/// `wave <name>` selects the waveform the name says, in any case: `saw`;
/// `square` or `sq`; `triangle` or `tri`; `sine` or `sin`.
#[verifier::rlimit(40)]
pub proof fn lemma_wave_words(n: Seq<char>)
    ensures
        lower_seq(n) == "saw"@ ==> spec_param_words("wave"@, seq![n]) == gives(
            ControlEvent::SetWave { waveform: Waveform::Saw },
        ),
        lower_seq(n) == "square"@ || lower_seq(n) == "sq"@ ==> spec_param_words("wave"@, seq![n])
            == gives(ControlEvent::SetWave { waveform: Waveform::Square }),
        lower_seq(n) == "triangle"@ || lower_seq(n) == "tri"@ ==> spec_param_words(
            "wave"@,
            seq![n],
        ) == gives(ControlEvent::SetWave { waveform: Waveform::Triangle }),
        lower_seq(n) == "sine"@ || lower_seq(n) == "sin"@ ==> spec_param_words("wave"@, seq![n])
            == gives(ControlEvent::SetWave { waveform: Waveform::Sine }),
{
    lemma_command_words();
    lemma_value_words();
}

/// Every way of naming a modulation destination gives that destination:
/// the name itself, `env3dest <name>`, `asenv dest <name>`, and
/// `lfo 1|2 dest <name>`.
pub open spec fn names_dest(n: Seq<char>, d: AssignableDest) -> bool {
    &&& spec_assignable_dest(n) == Ok::<AssignableDest, Seq<char>>(d)
    &&& spec_param_words("env3dest"@, seq![n]) == gives(ControlEvent::SetAssignableDest { dest: d })
    &&& spec_param_words("asenv"@, seq!["dest"@, n]) == gives(
        ControlEvent::SetAssignableDest { dest: d },
    )
    &&& spec_param_words("lfo"@, seq!["1"@, "dest"@, n]) == gives(
        ControlEvent::SetLfoDest { which: LfoId::One, dest: d },
    )
    &&& spec_param_words("lfo"@, seq!["2"@, "dest"@, n]) == gives(
        ControlEvent::SetLfoDest { which: LfoId::Two, dest: d },
    )
}

/// Destination names, in any case: `off`; `res` or `resonance`; `pitch`;
/// `cutoff`; `pw`, `pulse`, or `pwm` (pulse width); `amp`.
#[verifier::rlimit(80)]
pub proof fn lemma_dest_words(n: Seq<char>)
    ensures
        lower_seq(n) == "off"@ ==> names_dest(n, AssignableDest::Off),
        lower_seq(n) == "res"@ || lower_seq(n) == "resonance"@ ==> names_dest(
            n,
            AssignableDest::Resonance,
        ),
        lower_seq(n) == "pitch"@ ==> names_dest(n, AssignableDest::Pitch),
        lower_seq(n) == "cutoff"@ ==> names_dest(n, AssignableDest::Cutoff),
        lower_seq(n) == "pw"@ || lower_seq(n) == "pulse"@ || lower_seq(n) == "pwm"@ ==> names_dest(
            n,
            AssignableDest::PulseWidth,
        ),
        lower_seq(n) == "amp"@ ==> names_dest(n, AssignableDest::Amp),
{
    lemma_command_words();
    lemma_value_words();
}

/// `lfo 1|2 amt <v>` and `lfo 1|2 rate <v>` set that LFO's amount and rate
/// (the field word in any case).
#[verifier::rlimit(60)]
pub proof fn lemma_lfo_number_words(f: Seq<char>, v: Seq<char>)
    requires
        is_float_literal(v),
    ensures
        lower_seq(f) == "amt"@ ==> spec_param_words("lfo"@, seq!["1"@, f, v]) == gives(
            ControlEvent::SetLfoAmount { which: LfoId::One, amount: v },
        ),
        lower_seq(f) == "amt"@ ==> spec_param_words("lfo"@, seq!["2"@, f, v]) == gives(
            ControlEvent::SetLfoAmount { which: LfoId::Two, amount: v },
        ),
        lower_seq(f) == "rate"@ ==> spec_param_words("lfo"@, seq!["1"@, f, v]) == gives(
            ControlEvent::SetLfoRate { which: LfoId::One, rate_hz: v },
        ),
        lower_seq(f) == "rate"@ ==> spec_param_words("lfo"@, seq!["2"@, f, v]) == gives(
            ControlEvent::SetLfoRate { which: LfoId::Two, rate_hz: v },
        ),
{
    lemma_command_words();
    lemma_value_words();
}

/// Every way of naming an LFO wave gives that wave: the name itself and
/// `lfo 1|2 wave <name>`.
pub open spec fn names_lfo_wave(n: Seq<char>, w: LfoWave) -> bool {
    &&& spec_lfo_wave(n) == Ok::<LfoWave, Seq<char>>(w)
    &&& spec_param_words("lfo"@, seq!["1"@, "wave"@, n]) == gives(
        ControlEvent::SetLfoWave { which: LfoId::One, wave: w },
    )
    &&& spec_param_words("lfo"@, seq!["2"@, "wave"@, n]) == gives(
        ControlEvent::SetLfoWave { which: LfoId::Two, wave: w },
    )
}

/// LFO wave names, in any case: `sine`; `tri` or `triangle`; `square` or
/// `sq`; `saw`; `sh` or `snh` (sample and hold).
#[verifier::rlimit(80)]
pub proof fn lemma_lfo_wave_words(n: Seq<char>)
    ensures
        lower_seq(n) == "sine"@ ==> names_lfo_wave(n, LfoWave::Sine),
        lower_seq(n) == "tri"@ || lower_seq(n) == "triangle"@ ==> names_lfo_wave(
            n,
            LfoWave::Triangle,
        ),
        lower_seq(n) == "square"@ || lower_seq(n) == "sq"@ ==> names_lfo_wave(n, LfoWave::Square),
        lower_seq(n) == "saw"@ ==> names_lfo_wave(n, LfoWave::Saw),
        lower_seq(n) == "sh"@ || lower_seq(n) == "snh"@ ==> names_lfo_wave(
            n,
            LfoWave::SampleHold,
        ),
{
    lemma_command_words();
    lemma_value_words();
}

/// Every switch that `n` can turn: the envelope link (`envlink <n>`,
/// `env link <n>`) and each LFO's retrigger (`lfo 1|2 retrig <n>`).
pub open spec fn switches_to(n: Seq<char>, on: bool) -> bool {
    &&& spec_param_words("envlink"@, seq![n]) == gives(ControlEvent::SetEnvLink { on })
    &&& spec_param_words("env"@, seq!["link"@, n]) == gives(ControlEvent::SetEnvLink { on })
    &&& spec_param_words("lfo"@, seq!["1"@, "retrig"@, n]) == gives(
        ControlEvent::SetLfoRetrig { which: LfoId::One, on },
    )
    &&& spec_param_words("lfo"@, seq!["2"@, "retrig"@, n]) == gives(
        ControlEvent::SetLfoRetrig { which: LfoId::Two, on },
    )
}

/// `on` turns a switch on and `off` turns it off, in any case; `envcopy`
/// and `env copy` copy the amp times; `suboct 1` and `suboct 2` put the sub
/// one or two octaves down.
#[verifier::rlimit(80)]
pub proof fn lemma_switch_words(n: Seq<char>)
    ensures
        lower_seq(n) == "on"@ ==> switches_to(n, true),
        lower_seq(n) == "off"@ ==> switches_to(n, false),
        spec_param_words("envcopy"@, seq![]) == gives(ControlEvent::EnvCopy),
        spec_param_words("env"@, seq!["copy"@]) == gives(ControlEvent::EnvCopy),
        spec_param_words("suboct"@, seq!["1"@]) == gives(
            ControlEvent::SetSubOct { octaves: SubOctaves::One },
        ),
        spec_param_words("suboct"@, seq!["2"@]) == gives(
            ControlEvent::SetSubOct { octaves: SubOctaves::Two },
        ),
{
    lemma_command_words();
    lemma_value_words();
}

} // verus!

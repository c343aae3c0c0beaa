//! The single-engine laptop host: one engine, MIDI without channels, and a
//! small command set (`cutoff`, `res`, `attack`, `decay`, `sustain`,
//! `release`, `wave saw|square`).

use vstd::prelude::*;
use crate::args::{msg_too_many, parse_f32_arg, res_view, spec_f32_arg, text, text3};
use crate::events::Waveform;
use crate::text::{is_float_literal, lower_seq, split_words, to_lower, tokens, word_is};

verus! {

/// Notes and param changes of the single-engine host.
#[derive(Debug, Clone, Copy, PartialEq)]
pub enum SingleEngineEvent<N> {
    NoteOn { note: u8, velocity: u8 },
    NoteOff { note: u8 },
    SetCutoff { hz: N },
    SetResonance { amount: N },
    SetAttack { ms: N },
    SetDecay { ms: N },
    SetSustain { level: N },
    SetRelease { ms: N },
    SetWave { waveform: Waveform },
}

impl<N: DeepView> DeepView for SingleEngineEvent<N> {
    type V = SingleEngineEvent<N::V>;

    open spec fn deep_view(&self) -> SingleEngineEvent<N::V> {
        match *self {
            SingleEngineEvent::NoteOn { note, velocity } => SingleEngineEvent::NoteOn { note, velocity },
            SingleEngineEvent::NoteOff { note } => SingleEngineEvent::NoteOff { note },
            SingleEngineEvent::SetCutoff { hz } => SingleEngineEvent::SetCutoff { hz: hz.deep_view() },
            SingleEngineEvent::SetResonance { amount } => SingleEngineEvent::SetResonance {
                amount: amount.deep_view(),
            },
            SingleEngineEvent::SetAttack { ms } => SingleEngineEvent::SetAttack { ms: ms.deep_view() },
            SingleEngineEvent::SetDecay { ms } => SingleEngineEvent::SetDecay { ms: ms.deep_view() },
            SingleEngineEvent::SetSustain { level } => SingleEngineEvent::SetSustain {
                level: level.deep_view(),
            },
            SingleEngineEvent::SetRelease { ms } => SingleEngineEvent::SetRelease { ms: ms.deep_view() },
            SingleEngineEvent::SetWave { waveform } => SingleEngineEvent::SetWave { waveform },
        }
    }
}

/// Result of parsing one line, as contracts see it.
pub type SingleEngineResult = Result<Option<SingleEngineEvent<Seq<char>>>, Seq<char>>;

/// A numeric command's event from its parsed argument.
pub open spec fn single_engine_number(
    arg: Result<Seq<char>, Seq<char>>,
    make: spec_fn(Seq<char>) -> SingleEngineEvent<Seq<char>>,
) -> SingleEngineResult {
    match arg {
        Ok(v) => Ok(Some(make(v))),
        Err(e) => Err(e),
    }
}

/// The `wave` command's event for its (optional) argument.
pub open spec fn single_engine_wave(arg: Option<Seq<char>>) -> SingleEngineResult {
    match arg {
        None => Err("wave needs saw or square"@),
        Some(name) => {
            let l = lower_seq(name);
            if l == "saw"@ {
                Ok(Some(SingleEngineEvent::SetWave { waveform: Waveform::Saw }))
            } else if l == "square"@ || l == "sq"@ {
                Ok(Some(SingleEngineEvent::SetWave { waveform: Waveform::Square }))
            } else {
                Err("unknown wave '"@ + l + "' (use saw or square)"@)
            }
        },
    }
}

/// What one command line means to the single-engine host.
pub open spec fn spec_single_engine_command(line: Seq<char>) -> SingleEngineResult {
    let words = tokens(line);
    if line.len() == 0 {
        Ok(None)
    } else if words.len() == 0 {
        Err("expected a command"@)
    } else if words.len() > 2 {
        Err(msg_too_many())
    } else {
        let cmd = lower_seq(words[0]);
        let arg = if words.len() == 2 {
            Some(words[1])
        } else {
            None
        };
        if cmd == "cutoff"@ {
            single_engine_number(spec_f32_arg(arg, "cutoff"@), |v: Seq<char>| SingleEngineEvent::SetCutoff { hz: v })
        } else if cmd == "res"@ || cmd == "resonance"@ {
            single_engine_number(
                spec_f32_arg(arg, "res"@),
                |v: Seq<char>| SingleEngineEvent::SetResonance { amount: v },
            )
        } else if cmd == "attack"@ {
            single_engine_number(spec_f32_arg(arg, "attack"@), |v: Seq<char>| SingleEngineEvent::SetAttack { ms: v })
        } else if cmd == "decay"@ {
            single_engine_number(spec_f32_arg(arg, "decay"@), |v: Seq<char>| SingleEngineEvent::SetDecay { ms: v })
        } else if cmd == "sustain"@ {
            single_engine_number(
                spec_f32_arg(arg, "sustain"@),
                |v: Seq<char>| SingleEngineEvent::SetSustain { level: v },
            )
        } else if cmd == "release"@ {
            single_engine_number(
                spec_f32_arg(arg, "release"@),
                |v: Seq<char>| SingleEngineEvent::SetRelease { ms: v },
            )
        } else if cmd == "wave"@ {
            single_engine_wave(arg)
        } else {
            Err(
                "unknown command '"@ + cmd
                    + "' (cutoff, res, attack, decay, sustain, release, wave)"@,
            )
        }
    }
}

/// Parses one command line of the single-engine host. An empty line gives
/// `Ok(None)`; numbers are returned as their text, valid `f32` syntax.
pub fn parse_single_engine_command(line: &str) -> (r: Result<Option<SingleEngineEvent<String>>, String>)
    ensures
        res_view(r) == spec_single_engine_command(line@),
{
    if line.unicode_len() == 0 {
        return Ok(None);
    }
    let words = split_words(line);
    if words.len() == 0 {
        return Err(text("expected a command"));
    }
    if words.len() > 2 {
        return Err(text("too many arguments"));
    }
    let ghost w = words.deep_view();
    assert(w[0] == words@[0]@);
    let low = to_lower(words[0].as_str());
    let cmd = low.as_str();
    let arg: Option<&String> = if words.len() == 2 {
        assert(w[1] == words@[1]@);
        Some(&words[1])
    } else {
        None
    };
    if word_is(cmd, "cutoff") {
        let hz = parse_f32_arg(arg, "cutoff")?;
        Ok(Some(SingleEngineEvent::SetCutoff { hz }))
    } else if word_is(cmd, "res") || word_is(cmd, "resonance") {
        let amount = parse_f32_arg(arg, "res")?;
        Ok(Some(SingleEngineEvent::SetResonance { amount }))
    } else if word_is(cmd, "attack") {
        let ms = parse_f32_arg(arg, "attack")?;
        Ok(Some(SingleEngineEvent::SetAttack { ms }))
    } else if word_is(cmd, "decay") {
        let ms = parse_f32_arg(arg, "decay")?;
        Ok(Some(SingleEngineEvent::SetDecay { ms }))
    } else if word_is(cmd, "sustain") {
        let level = parse_f32_arg(arg, "sustain")?;
        Ok(Some(SingleEngineEvent::SetSustain { level }))
    } else if word_is(cmd, "release") {
        let ms = parse_f32_arg(arg, "release")?;
        Ok(Some(SingleEngineEvent::SetRelease { ms }))
    } else if word_is(cmd, "wave") {
        match arg {
            None => Err(text("wave needs saw or square")),
            Some(name) => {
                let lname = to_lower(name.as_str());
                let l = lname.as_str();
                if word_is(l, "saw") {
                    Ok(Some(SingleEngineEvent::SetWave { waveform: Waveform::Saw }))
                } else if word_is(l, "square") || word_is(l, "sq") {
                    Ok(Some(SingleEngineEvent::SetWave { waveform: Waveform::Square }))
                } else {
                    Err(text3("unknown wave '", l, "' (use saw or square)"))
                }
            },
        }
    } else {
        Err(text3("unknown command '", cmd, "' (cutoff, res, attack, decay, sustain, release, wave)"))
    }
}

/// Note on/off from MIDI bytes, channel ignored: status `0x9n` with a
/// nonzero velocity is a note-on, `0x9n` with velocity 0 (or none given)
/// and `0x8n` are note-offs; anything shorter than two bytes or with
/// another status is `None`.
pub open spec fn spec_single_engine_midi<N>(m: Seq<u8>) -> Option<SingleEngineEvent<N>> {
    if m.len() < 2 {
        None
    } else {
        let kind = m[0] / 16;
        let velocity = if m.len() > 2 {
            m[2]
        } else {
            0u8
        };
        if kind == 9 && velocity > 0 {
            Some(SingleEngineEvent::NoteOn { note: m[1], velocity })
        } else if kind == 9 || kind == 8 {
            Some(SingleEngineEvent::NoteOff { note: m[1] })
        } else {
            None
        }
    }
}

/// Note events of the single-engine host from raw MIDI bytes.
pub fn parse_single_engine_midi<N>(message: &[u8]) -> (r: Option<SingleEngineEvent<N>>)
    ensures
        r == spec_single_engine_midi::<N>(message@),
{
    if message.len() < 2 {
        return None;
    }
    let status = message[0];
    let note = message[1];
    let velocity = if message.len() > 2 {
        message[2]
    } else {
        0
    };
    assert(status & 0xF0 == 0x90 <==> status / 16 == 9) by (bit_vector);
    assert(status & 0xF0 == 0x80 <==> status / 16 == 8) by (bit_vector);
    let kind = status & 0xF0;
    if kind == 0x90 && velocity > 0 {
        Some(SingleEngineEvent::NoteOn { note, velocity })
    } else if kind == 0x90 || kind == 0x80 {
        Some(SingleEngineEvent::NoteOff { note })
    } else {
        None
    }
}

/// A line of a command word and one number sets what the word names, the
/// word in any case: `cutoff` the cutoff, `res` or `resonance` the
/// resonance, and `attack`, `decay`, `sustain`, `release` the envelope's
/// attack, decay, sustain, and release. `wave saw` selects the saw and
/// `wave square` or `wave sq` the square.
#[verifier::rlimit(40)]
pub proof fn lemma_single_engine_lines(line: Seq<char>)
    requires
        line.len() > 0,
        tokens(line).len() == 2,
    ensures
        ({
            let w = lower_seq(tokens(line)[0]);
            let v = tokens(line)[1];
            let r = spec_single_engine_command(line);
            &&& is_float_literal(v) ==> {
                &&& w == "cutoff"@ ==> r == Ok::<Option<SingleEngineEvent<Seq<char>>>, Seq<char>>(Some(SingleEngineEvent::SetCutoff { hz: v }))
                &&& w == "res"@ || w == "resonance"@ ==> r == Ok::<Option<SingleEngineEvent<Seq<char>>>, Seq<char>>(
                    Some(SingleEngineEvent::SetResonance { amount: v }),
                )
                &&& w == "attack"@ ==> r == Ok::<Option<SingleEngineEvent<Seq<char>>>, Seq<char>>(Some(SingleEngineEvent::SetAttack { ms: v }))
                &&& w == "decay"@ ==> r == Ok::<Option<SingleEngineEvent<Seq<char>>>, Seq<char>>(Some(SingleEngineEvent::SetDecay { ms: v }))
                &&& w == "sustain"@ ==> r == Ok::<Option<SingleEngineEvent<Seq<char>>>, Seq<char>>(
                    Some(SingleEngineEvent::SetSustain { level: v }),
                )
                &&& w == "release"@ ==> r == Ok::<Option<SingleEngineEvent<Seq<char>>>, Seq<char>>(
                    Some(SingleEngineEvent::SetRelease { ms: v }),
                )
            }
            &&& w == "wave"@ && lower_seq(v) == "saw"@ ==> r == Ok::<Option<SingleEngineEvent<Seq<char>>>, Seq<char>>(
                Some(SingleEngineEvent::SetWave { waveform: Waveform::Saw }),
            )
            &&& w == "wave"@ && (lower_seq(v) == "square"@ || lower_seq(v) == "sq"@) ==> r == Ok::<
                Option<SingleEngineEvent<Seq<char>>>,
                Seq<char>,
            >(Some(SingleEngineEvent::SetWave { waveform: Waveform::Square }))
        }),
{
    reveal_strlit("cutoff");
    reveal_strlit("res");
    reveal_strlit("resonance");
    reveal_strlit("attack");
    reveal_strlit("decay");
    reveal_strlit("sustain");
    reveal_strlit("release");
    reveal_strlit("wave");
    reveal_strlit("saw");
    reveal_strlit("square");
    reveal_strlit("sq");
    assert("attack"@[0] != "cutoff"@[0]);
    assert("sustain"@[0] != "release"@[0]);
    assert("cutoff"@.len() == 6 && "res"@.len() == 3 && "resonance"@.len() == 9);
    assert("attack"@.len() == 6 && "decay"@.len() == 5 && "sustain"@.len() == 7);
    assert("release"@.len() == 7 && "wave"@.len() == 4 && "saw"@.len() == 3);
    assert("square"@.len() == 6 && "sq"@.len() == 2);
}

/// Single-engine MIDI, channel ignored: a status from 0x90 to 0x9F is
/// note-on (note-off when the velocity is 0 or missing), a status from 0x80
/// to 0x8F is note-off, any other status carries no note.
pub proof fn lemma_single_engine_notes<N>(status: u8, note: u8, velocity: u8)
    ensures
        0x90 <= status <= 0x9F && velocity > 0 ==> spec_single_engine_midi::<N>(
            seq![status, note, velocity],
        ) == Some(SingleEngineEvent::<N>::NoteOn { note, velocity }),
        0x90 <= status <= 0x9F && velocity == 0 ==> spec_single_engine_midi::<N>(
            seq![status, note, velocity],
        ) == Some(SingleEngineEvent::<N>::NoteOff { note }),
        0x80 <= status <= 0x8F ==> spec_single_engine_midi::<N>(seq![status, note, velocity]) == Some(
            SingleEngineEvent::<N>::NoteOff { note },
        ),
        !(0x80 <= status <= 0x9F) ==> spec_single_engine_midi::<N>(seq![status, note, velocity]) is None,
        spec_single_engine_midi::<N>(seq![status, note]) == spec_single_engine_midi::<N>(
            seq![status, note, 0u8],
        ),
{
}

} // verus!

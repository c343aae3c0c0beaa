//! Argument helpers and small word parsers for the terminal command language.
//!
//! Results are exactly those of the host command set: a parsed value, or the
//! error text the terminal prints. A numeric argument is returned as its text
//! once it is known to be valid `f32` syntax; hosts convert it.

use vstd::prelude::*;
use crate::events::{AssignableDest, LfoId, LfoWave, ENGINE_COUNT};
use crate::text::{
    all_digits, chars_of, is_digit, is_float_literal, is_number_word, is_unsigned_literal, lower_seq,
    parse_unsigned_at_most, to_lower, unsigned_value, word_is,
};

verus! {

/// A parse result as seen by contracts: values by their deep view, the error
/// text by its characters.
pub open spec fn res_view<T: DeepView>(r: Result<T, String>) -> Result<T::V, Seq<char>> {
    match r {
        Ok(v) => Ok(v.deep_view()),
        Err(e) => Err(e@),
    }
}

pub open spec fn msg_too_many() -> Seq<char> {
    "too many arguments"@
}

/// `"{name} needs a number"`
pub open spec fn msg_needs_number(name: Seq<char>) -> Seq<char> {
    name + " needs a number"@
}

/// `"could not parse '{raw}' as a number for {name}"`
pub open spec fn msg_not_number(raw: Seq<char>, name: Seq<char>) -> Seq<char> {
    "could not parse '"@ + raw + "' as a number for "@ + name
}

pub fn text(lit: &str) -> (r: String)
    ensures
        r@ == lit@,
{
    String::from_str(lit)
}

pub fn text2(a: &str, b: &str) -> (r: String)
    ensures
        r@ == a@ + b@,
{
    let mut s = String::from_str(a);
    s.append(b);
    s
}

pub fn text3(a: &str, b: &str, c: &str) -> (r: String)
    ensures
        r@ == a@ + b@ + c@,
{
    let mut s = String::from_str(a);
    s.append(b);
    s.append(c);
    s
}

pub fn text4(a: &str, b: &str, c: &str, d: &str) -> (r: String)
    ensures
        r@ == a@ + b@ + c@ + d@,
{
    let mut s = String::from_str(a);
    s.append(b);
    s.append(c);
    s.append(d);
    s
}

pub fn text5(a: &str, b: &str, c: &str, d: &str, e: &str) -> (r: String)
    ensures
        r@ == a@ + b@ + c@ + d@ + e@,
{
    let mut s = String::from_str(a);
    s.append(b);
    s.append(c);
    s.append(d);
    s.append(e);
    s
}

fn too_many() -> (r: String)
    ensures
        r@ == msg_too_many(),
{
    text("too many arguments")
}

pub open spec fn spec_single_optional_arg(args: Seq<Seq<char>>) -> Result<
    Option<Seq<char>>,
    Seq<char>,
> {
    if args.len() == 0 {
        Ok(None)
    } else if args.len() == 1 {
        Ok(Some(args[0]))
    } else {
        Err(msg_too_many())
    }
}

/// The one optional argument, or "too many arguments".
pub fn single_optional_arg<'a>(args: &'a [String]) -> (r: Result<Option<&'a String>, String>)
    ensures
        res_view(r) == spec_single_optional_arg(args@.map_values(|s: String| s@)),
{
    let ghost a = args@.map_values(|s: String| s@);
    if args.len() == 0 {
        Ok(None)
    } else if args.len() == 1 {
        assert(a[0] == args@[0]@);
        Ok(Some(&args[0]))
    } else {
        Err(too_many())
    }
}

pub open spec fn spec_single_required_arg(args: Seq<Seq<char>>, missing: Seq<char>) -> Result<
    Seq<char>,
    Seq<char>,
> {
    if args.len() == 0 {
        Err(missing)
    } else if args.len() == 1 {
        Ok(args[0])
    } else {
        Err(msg_too_many())
    }
}

/// The one required argument; `missing` when there is none.
pub fn single_required_arg<'a>(args: &'a [String], missing: &str) -> (r: Result<&'a String, String>)
    ensures
        res_view(r) == spec_single_required_arg(args@.map_values(|s: String| s@), missing@),
{
    let ghost a = args@.map_values(|s: String| s@);
    if args.len() == 0 {
        Err(text(missing))
    } else if args.len() == 1 {
        assert(a[0] == args@[0]@);
        Ok(&args[0])
    } else {
        Err(too_many())
    }
}

/// No arguments, or "too many arguments".
pub fn expect_no_args(args: &[String]) -> (r: Result<(), String>)
    ensures
        r is Ok <==> args@.len() == 0,
        r matches Err(e) ==> e@ == msg_too_many(),
{
    if args.len() == 0 {
        Ok(())
    } else {
        Err(too_many())
    }
}

pub open spec fn spec_f32_arg(arg: Option<Seq<char>>, name: Seq<char>) -> Result<
    Seq<char>,
    Seq<char>,
> {
    match arg {
        None => Err(msg_needs_number(name)),
        Some(raw) => if is_float_literal(raw) {
            Ok(raw)
        } else {
            Err(msg_not_number(raw, name))
        },
    }
}

/// A numeric argument: its text when it is valid `f32` syntax.
pub fn parse_f32_arg(arg: Option<&String>, name: &str) -> (r: Result<String, String>)
    ensures
        res_view(r) == spec_f32_arg(
            match arg {
                Some(s) => Some(s@),
                None => None,
            },
            name@,
        ),
{
    match arg {
        None => Err(text2(name, " needs a number")),
        Some(raw) => {
            if is_number_word(raw.as_str()) {
                Ok(raw.clone())
            } else {
                Err(text4("could not parse '", raw.as_str(), "' as a number for ", name))
            }
        },
    }
}

pub open spec fn spec_single_f32_arg(args: Seq<Seq<char>>, name: Seq<char>) -> Result<
    Seq<char>,
    Seq<char>,
> {
    match spec_single_optional_arg(args) {
        Err(e) => Err(e),
        Ok(a) => spec_f32_arg(a, name),
    }
}

/// The single numeric argument of a one-word command.
pub fn parse_single_f32_arg(args: &[String], name: &str) -> (r: Result<String, String>)
    ensures
        res_view(r) == spec_single_f32_arg(args@.map_values(|s: String| s@), name@),
{
    let a = single_optional_arg(args)?;
    parse_f32_arg(a, name)
}

pub open spec fn spec_grouped_f32_arg(args: Seq<Seq<char>>, name: Seq<char>) -> Result<
    Seq<char>,
    Seq<char>,
> {
    if args.len() < 2 {
        Err(msg_needs_number(name))
    } else if args.len() > 2 {
        Err(msg_too_many())
    } else {
        spec_f32_arg(Some(args[1]), name)
    }
}

/// The numeric second argument of a two-word command (`fenv amt 1.5`).
pub fn parse_grouped_f32_arg(args: &[String], name: &str) -> (r: Result<String, String>)
    ensures
        res_view(r) == spec_grouped_f32_arg(args@.map_values(|s: String| s@), name@),
{
    if args.len() < 2 {
        return Err(text2(name, " needs a number"));
    }
    if args.len() > 2 {
        return Err(too_many());
    }
    parse_f32_arg(Some(&args[1]), name)
}

pub open spec fn spec_assignable_dest(name: Seq<char>) -> Result<AssignableDest, Seq<char>> {
    let l = lower_seq(name);
    if l == "off"@ {
        Ok(AssignableDest::Off)
    } else if l == "res"@ || l == "resonance"@ {
        Ok(AssignableDest::Resonance)
    } else if l == "pitch"@ {
        Ok(AssignableDest::Pitch)
    } else if l == "cutoff"@ {
        Ok(AssignableDest::Cutoff)
    } else if l == "pw"@ || l == "pulse"@ || l == "pwm"@ {
        Ok(AssignableDest::PulseWidth)
    } else if l == "amp"@ {
        Ok(AssignableDest::Amp)
    } else {
        Err("unknown dest '"@ + l + "' (use off, res, pitch, cutoff, pw, or amp)"@)
    }
}

/// A modulation destination name, case-insensitively.
pub fn parse_assignable_dest(name: &String) -> (r: Result<AssignableDest, String>)
    ensures
        match r {
            Ok(d) => spec_assignable_dest(name@) == Ok::<AssignableDest, Seq<char>>(d),
            Err(e) => spec_assignable_dest(name@) == Err::<AssignableDest, Seq<char>>(e@),
        },
{
    let l = to_lower(name.as_str());
    let s = l.as_str();
    if word_is(s, "off") {
        Ok(AssignableDest::Off)
    } else if word_is(s, "res") || word_is(s, "resonance") {
        Ok(AssignableDest::Resonance)
    } else if word_is(s, "pitch") {
        Ok(AssignableDest::Pitch)
    } else if word_is(s, "cutoff") {
        Ok(AssignableDest::Cutoff)
    } else if word_is(s, "pw") || word_is(s, "pulse") || word_is(s, "pwm") {
        Ok(AssignableDest::PulseWidth)
    } else if word_is(s, "amp") {
        Ok(AssignableDest::Amp)
    } else {
        Err(text3("unknown dest '", s, "' (use off, res, pitch, cutoff, pw, or amp)"))
    }
}

pub open spec fn spec_on_off(name: Seq<char>, command: Seq<char>) -> Result<bool, Seq<char>> {
    let l = lower_seq(name);
    if l == "on"@ {
        Ok(true)
    } else if l == "off"@ {
        Ok(false)
    } else {
        Err("unknown "@ + command + " '"@ + l + "' (use on or off)"@)
    }
}

/// `on` or `off`, case-insensitively.
pub fn parse_on_off(name: &String, command: &str) -> (r: Result<bool, String>)
    ensures
        match r {
            Ok(b) => spec_on_off(name@, command@) == Ok::<bool, Seq<char>>(b),
            Err(e) => spec_on_off(name@, command@) == Err::<bool, Seq<char>>(e@),
        },
{
    let l = to_lower(name.as_str());
    let s = l.as_str();
    if word_is(s, "on") {
        Ok(true)
    } else if word_is(s, "off") {
        Ok(false)
    } else {
        Err(text5("unknown ", command, " '", s, "' (use on or off)"))
    }
}

pub open spec fn spec_lfo_id(raw: Seq<char>) -> Result<LfoId, Seq<char>> {
    if raw == "1"@ {
        Ok(LfoId::One)
    } else if raw == "2"@ {
        Ok(LfoId::Two)
    } else {
        Err("lfo needs 1 or 2"@)
    }
}

/// LFO number `1` or `2`.
pub fn parse_lfo_id(raw: &String) -> (r: Result<LfoId, String>)
    ensures
        match r {
            Ok(id) => spec_lfo_id(raw@) == Ok::<LfoId, Seq<char>>(id),
            Err(e) => spec_lfo_id(raw@) == Err::<LfoId, Seq<char>>(e@),
        },
{
    if word_is(raw.as_str(), "1") {
        Ok(LfoId::One)
    } else if word_is(raw.as_str(), "2") {
        Ok(LfoId::Two)
    } else {
        Err(text("lfo needs 1 or 2"))
    }
}

pub open spec fn spec_lfo_wave(name: Seq<char>) -> Result<LfoWave, Seq<char>> {
    let l = lower_seq(name);
    if l == "sine"@ {
        Ok(LfoWave::Sine)
    } else if l == "tri"@ || l == "triangle"@ {
        Ok(LfoWave::Triangle)
    } else if l == "square"@ || l == "sq"@ {
        Ok(LfoWave::Square)
    } else if l == "saw"@ {
        Ok(LfoWave::Saw)
    } else if l == "sh"@ || l == "snh"@ {
        Ok(LfoWave::SampleHold)
    } else {
        Err("unknown wave '"@ + l + "' (use sine, tri, square, saw, or sh)"@)
    }
}

/// An LFO wave name, case-insensitively.
pub fn parse_lfo_wave(name: &String) -> (r: Result<LfoWave, String>)
    ensures
        match r {
            Ok(w) => spec_lfo_wave(name@) == Ok::<LfoWave, Seq<char>>(w),
            Err(e) => spec_lfo_wave(name@) == Err::<LfoWave, Seq<char>>(e@),
        },
{
    let l = to_lower(name.as_str());
    let s = l.as_str();
    if word_is(s, "sine") {
        Ok(LfoWave::Sine)
    } else if word_is(s, "tri") || word_is(s, "triangle") {
        Ok(LfoWave::Triangle)
    } else if word_is(s, "square") || word_is(s, "sq") {
        Ok(LfoWave::Square)
    } else if word_is(s, "saw") {
        Ok(LfoWave::Saw)
    } else if word_is(s, "sh") || word_is(s, "snh") {
        Ok(LfoWave::SampleHold)
    } else {
        Err(text3("unknown wave '", s, "' (use sine, tri, square, saw, or sh)"))
    }
}

pub open spec fn spec_engine_number(raw: Seq<char>) -> Result<usize, Seq<char>> {
    if is_unsigned_literal(raw) && 1 <= unsigned_value(raw) <= ENGINE_COUNT {
        Ok(unsigned_value(raw) as usize)
    } else {
        Err("eng needs a number 1 through 4"@)
    }
}

/// Engine number 1 through 4, as `usize::from_str` reads it.
pub fn parse_engine_number(raw: &String) -> (r: Result<usize, String>)
    ensures
        match r {
            Ok(n) => spec_engine_number(raw@) == Ok::<usize, Seq<char>>(n) && 1 <= n <= ENGINE_COUNT,
            Err(e) => spec_engine_number(raw@) == Err::<usize, Seq<char>>(e@),
        },
{
    match parse_unsigned_at_most(raw.as_str(), 4) {
        Some(n) => {
            if n >= 1 {
                Ok(n as usize)
            } else {
                Err(text("eng needs a number 1 through 4"))
            }
        },
        None => Err(text("eng needs a number 1 through 4")),
    }
}

pub open spec fn spec_listen_channel(raw: Seq<char>) -> Result<u8, Seq<char>> {
    if is_unsigned_literal(raw) && 1 <= unsigned_value(raw) <= 16 {
        Ok(unsigned_value(raw) as u8)
    } else {
        Err("ch needs a channel 1 through 16"@)
    }
}

/// MIDI listen channel 1 through 16, as `u8::from_str` reads it.
pub fn parse_listen_channel(raw: &String) -> (r: Result<u8, String>)
    ensures
        match r {
            Ok(n) => spec_listen_channel(raw@) == Ok::<u8, Seq<char>>(n) && 1 <= n <= 16,
            Err(e) => spec_listen_channel(raw@) == Err::<u8, Seq<char>>(e@),
        },
{
    match parse_unsigned_at_most(raw.as_str(), 16) {
        Some(n) => {
            if n >= 1 {
                Ok(n as u8)
            } else {
                Err(text("ch needs a channel 1 through 16"))
            }
        },
        None => Err(text("ch needs a channel 1 through 16")),
    }
}

/// Whether a lowercase word is `prefix` followed directly by one or more
/// ASCII digits, as in `eng2` or `lfo1`.
pub open spec fn is_glued(w: Seq<char>, prefix: Seq<char>) -> bool {
    w.len() > prefix.len() && w.take(prefix.len() as int) == prefix && all_digits(
        w.skip(prefix.len() as int),
    )
}

fn glued_word(w: &str, prefix: &str) -> (r: bool)
    ensures
        r == is_glued(w@, prefix@),
{
    let v = chars_of(w);
    let p = chars_of(prefix);
    let n = v.len();
    let m = p.len();
    if n <= m {
        return false;
    }
    let mut i: usize = 0;
    while i < m
        invariant
            i <= m < n,
            v@ == w@,
            p@ == prefix@,
            n == v@.len(),
            m == p@.len(),
            forall|j: int| 0 <= j < i ==> v@[j] == p@[j],
        decreases m - i,
    {
        if v[i] != p[i] {
            assert(w@.take(m as int)[i as int] != prefix@[i as int]);
            return false;
        }
        i = i + 1;
    }
    assert(w@.take(m as int) =~= prefix@);
    let mut k: usize = m;
    while k < n
        invariant
            m <= k <= n,
            v@ == w@,
            n == v@.len(),
            m == prefix@.len(),
            forall|j: int| m <= j < k ==> is_digit(v@[j]),
        decreases n - k,
    {
        if !('0' <= v[k] && v[k] <= '9') {
            assert(w@.skip(m as int)[k - m] == v@[k as int]);
            return false;
        }
        k = k + 1;
    }
    assert forall|j: int| 0 <= j < w@.skip(m as int).len() implies is_digit(
        #[trigger] w@.skip(m as int)[j],
    ) by {
        assert(w@.skip(m as int)[j] == v@[m + j]);
    }
    true
}

/// `eng` glued to a number, such as `eng2`.
pub fn is_glued_eng_token(cmd: &str) -> (r: bool)
    ensures
        r == is_glued(cmd@, "eng"@),
{
    glued_word(cmd, "eng")
}

/// `lfo` glued to a number, such as `lfo1`.
pub fn is_glued_lfo_token(cmd: &str) -> (r: bool)
    ensures
        r == is_glued(cmd@, "lfo"@),
{
    glued_word(cmd, "lfo")
}

} // verus!

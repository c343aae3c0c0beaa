//! Text of the settings reports the terminal prints: names of destinations
//! and LFO waves, and lines qualified with the engine they describe
//! (`eng 2 cutoff 800`), so that a report can be pasted back as commands.

use vstd::prelude::*;
use crate::events::{AssignableDest, LfoWave};
use crate::args::{is_glued, spec_engine_number};
use crate::commands::{spec_line_commands, spec_targeted, ParsedView};
use crate::params_cmd::{lemma_dest_words, lemma_lfo_wave_words, names_dest, names_lfo_wave};
use crate::events::ENGINE_COUNT;
use crate::text::{
    all_digits, digits_value, is_ws, lower_seq, push_char, tokens, tokens_from, unsigned_digits, unsigned_value,
};

verus! {

/// Command word for an assignable destination.
pub open spec fn dest_name(dest: AssignableDest) -> Seq<char> {
    match dest {
        AssignableDest::Off => "off"@,
        AssignableDest::Resonance => "res"@,
        AssignableDest::Pitch => "pitch"@,
        AssignableDest::Cutoff => "cutoff"@,
        AssignableDest::PulseWidth => "pw"@,
        AssignableDest::Amp => "amp"@,
    }
}

/// Command word for an LFO wave.
pub open spec fn wave_name(wave: LfoWave) -> Seq<char> {
    match wave {
        LfoWave::Sine => "sine"@,
        LfoWave::Triangle => "tri"@,
        LfoWave::Square => "square"@,
        LfoWave::Saw => "saw"@,
        LfoWave::SampleHold => "sh"@,
    }
}

/// The word that `asenv dest` and `lfo N dest` accept for `dest`.
pub fn assignable_dest_name(dest: AssignableDest) -> (r: &'static str)
    ensures
        r@ == dest_name(dest),
{
    match dest {
        AssignableDest::Off => "off",
        AssignableDest::Resonance => "res",
        AssignableDest::Pitch => "pitch",
        AssignableDest::Cutoff => "cutoff",
        AssignableDest::PulseWidth => "pw",
        AssignableDest::Amp => "amp",
    }
}

/// The word that `lfo N wave` accepts for `wave`.
pub fn lfo_wave_name(wave: LfoWave) -> (r: &'static str)
    ensures
        r@ == wave_name(wave),
{
    match wave {
        LfoWave::Sine => "sine",
        LfoWave::Triangle => "tri",
        LfoWave::Square => "square",
        LfoWave::Saw => "saw",
        LfoWave::SampleHold => "sh",
    }
}

/// The character of one decimal digit.
pub open spec fn digit_char(d: nat) -> char {
    (d + 48) as char
}

/// Decimal digits of `n`, most significant first, without leading zeros.
pub open spec fn decimal(n: nat) -> Seq<char>
    decreases n,
{
    if n < 10 {
        seq![digit_char(n)]
    } else {
        decimal(n / 10).push(digit_char(n % 10))
    }
}

fn push_decimal(out: &mut String, n: usize)
    ensures
        final(out)@ == old(out)@ + decimal(n as nat),
    decreases n,
{
    if n >= 10 {
        push_decimal(out, n / 10);
    }
    let d = (n % 10) as u8;
    push_char(out, (d + 48) as char);
    assert(final(out)@ =~= old(out)@ + decimal(n as nat));
}

/// One report line for engine `n`: `eng N <rest>` and a newline.
pub open spec fn qualified_text(n: nat, rest: Seq<char>) -> Seq<char> {
    seq!['e', 'n', 'g', ' '] + decimal(n) + seq![' '] + rest + seq!['\n']
}

/// `rest` as a report line for engine `n` (1-based).
pub fn qualified(n: usize, rest: &str) -> (r: String)
    ensures
        r@ == qualified_text(n as nat, rest@),
{
    let mut out = String::new();
    push_char(&mut out, 'e');
    push_char(&mut out, 'n');
    push_char(&mut out, 'g');
    push_char(&mut out, ' ');
    push_decimal(&mut out, n);
    push_char(&mut out, ' ');
    let len = rest.unicode_len();
    let ghost head = out@;
    let mut i: usize = 0;
    while i < len
        invariant
            len == rest@.len(),
            i <= len,
            out@ == head + rest@.take(i as int),
        decreases len - i,
    {
        push_char(&mut out, rest.get_char(i));
        assert(rest@.take(i + 1) =~= rest@.take(i as int).push(rest@[i as int]));
        i = i + 1;
    }
    push_char(&mut out, '\n');
    assert(rest@.take(len as int) =~= rest@);
    assert(out@ =~= qualified_text(n as nat, rest@));
    out
}

/// A line as `str::lines` yields it when a newline ended it: one trailing
/// carriage return is dropped.
pub open spec fn strip_cr(line: Seq<char>) -> Seq<char> {
    if line.len() > 0 && line.last() == '\r' {
        line.drop_last()
    } else {
        line
    }
}

/// A qualified line, or nothing for an empty line.
pub open spec fn qualified_nonempty(n: nat, line: Seq<char>) -> Seq<char> {
    if line.len() == 0 {
        seq![]
    } else {
        qualified_text(n, line)
    }
}

/// Qualified lines of `s`, with `cur` the part of the current line read so far.
pub open spec fn block_from(n: nat, s: Seq<char>, cur: Seq<char>) -> Seq<char>
    decreases s.len(),
{
    if s.len() == 0 {
        qualified_nonempty(n, cur)
    } else if s[0] == '\n' {
        qualified_nonempty(n, strip_cr(cur)) + block_from(n, s.drop_first(), seq![])
    } else {
        block_from(n, s.drop_first(), cur.push(s[0]))
    }
}

/// Every non-empty line of `body` (as `str::lines` splits it), qualified
/// with engine `n`, in order.
pub fn qualify_block(n: usize, body: &str) -> (r: String)
    ensures
        r@ == block_from(n as nat, body@, seq![]),
{
    let len = body.unicode_len();
    let mut out = String::new();
    let mut cur = String::new();
    let mut i: usize = 0;
    assert(body@.skip(0) =~= body@);
    while i < len
        invariant
            len == body@.len(),
            i <= len,
            out@ + block_from(n as nat, body@.skip(i as int), cur@) == block_from(
                n as nat,
                body@,
                seq![],
            ),
        decreases len - i,
    {
        let c = body.get_char(i);
        let ghost rest = body@.skip(i as int);
        assert(rest.len() > 0 && rest[0] == c);
        assert(rest.drop_first() =~= body@.skip(i + 1));
        if c == '\n' {
            let line = without_final_cr(&cur);
            let ghost before = out@;
            append_qualified(&mut out, n, &line);
            assert(before + block_from(n as nat, rest, cur@) =~= out@ + block_from(
                n as nat,
                body@.skip(i + 1),
                seq![],
            ));
            cur = String::new();
        } else {
            push_char(&mut cur, c);
        }
        i = i + 1;
    }
    assert(body@.skip(len as int) =~= Seq::<char>::empty());
    let ghost before = out@;
    append_qualified(&mut out, n, &cur);
    assert(out@ =~= before + qualified_nonempty(n as nat, cur@));
    out
}

fn without_final_cr(line: &String) -> (r: String)
    ensures
        r@ == strip_cr(line@),
{
    let len = line.unicode_len();
    let keep = if len > 0 && line.as_str().get_char(len - 1) == '\r' {
        len - 1
    } else {
        len
    };
    let mut out = String::new();
    let mut i: usize = 0;
    while i < keep
        invariant
            keep <= len == line@.len(),
            i <= keep,
            out@ == line@.take(i as int),
        decreases keep - i,
    {
        push_char(&mut out, line.as_str().get_char(i));
        assert(line@.take(i + 1) =~= line@.take(i as int).push(line@[i as int]));
        i = i + 1;
    }
    assert(out@ =~= strip_cr(line@));
    out
}

fn append_qualified(out: &mut String, n: usize, line: &String)
    ensures
        final(out)@ == old(out)@ + qualified_nonempty(n as nat, line@),
{
    if line.unicode_len() > 0 {
        let q = qualified(n, line.as_str());
        let len = q.unicode_len();
        let ghost head = out@;
        let mut i: usize = 0;
        while i < len
            invariant
                len == q@.len(),
                i <= len,
                out@ == head + q@.take(i as int),
            decreases len - i,
        {
            push_char(out, q.as_str().get_char(i));
            assert(q@.take(i + 1) =~= q@.take(i as int).push(q@[i as int]));
            i = i + 1;
        }
        assert(q@.take(len as int) =~= q@);
    } else {
        assert(old(out)@ + qualified_nonempty(n as nat, line@) =~= old(out)@);
    }
}

proof fn lemma_tokens_word(w: Seq<char>, s: Seq<char>, cur: Seq<char>)
    requires
        forall|i: int| 0 <= i < w.len() ==> !is_ws(#[trigger] w[i]),
    ensures
        tokens_from(w + s, cur) == tokens_from(s, cur + w),
    decreases w.len(),
{
    if w.len() > 0 {
        assert((w + s)[0] == w[0]);
        assert((w + s).drop_first() =~= w.drop_first() + s);
        assert(cur.push(w[0]) + w.drop_first() =~= cur + w);
        assert forall|i: int| 0 <= i < w.drop_first().len() implies !is_ws(
            #[trigger] w.drop_first()[i],
        ) by {
            assert(w.drop_first()[i] == w[i + 1]);
        }
        lemma_tokens_word(w.drop_first(), s, cur.push(w[0]));
    } else {
        assert(w + s =~= s);
        assert(cur + w =~= cur);
    }
}

proof fn lemma_tokens_space(s: Seq<char>, cur: Seq<char>)
    requires
        cur.len() > 0,
    ensures
        tokens_from(seq![' '] + s, cur) == seq![cur] + tokens_from(s, seq![]),
{
    assert((seq![' '] + s)[0] == ' ');
    assert((seq![' '] + s).drop_first() =~= s);
}

/// A report line replays as the command it shows: the line `eng N <text>`,
/// read back without its newline, is `<text>` applied once to engine N (for
/// N from 1 to 4 and any text that holds a word), leaving the current engine
/// alone.
pub proof fn lemma_qualified_line_replays(n: usize, line: Seq<char>, current_instance: usize)
    requires
        1 <= n <= ENGINE_COUNT,
        tokens(line).len() > 0,
    ensures
        spec_line_commands(qualified_text(n as nat, line).drop_last(), current_instance) == (
        match spec_targeted(tokens(line), n) {
            Ok(p) => Ok::<Option<ParsedView>, Seq<char>>(Some(p)),
            Err(e) => Err(e),
        }),
{
    let d = decimal(n as nat);
    let eng = seq!['e', 'n', 'g'];
    let text = qualified_text(n as nat, line).drop_last();
    assert(d =~= seq![digit_char(n as nat)]);
    assert(text =~= eng + (seq![' '] + (d + (seq![' '] + line))));
    assert(!is_ws(digit_char(n as nat)));
    lemma_tokens_word(eng, seq![' '] + (d + (seq![' '] + line)), seq![]);
    assert(Seq::<char>::empty() + eng =~= eng);
    lemma_tokens_space(d + (seq![' '] + line), eng);
    lemma_tokens_word(d, seq![' '] + line, seq![]);
    assert(Seq::<char>::empty() + d =~= d);
    lemma_tokens_space(line, d);
    let words = tokens(text);
    assert(words =~= seq![eng, d] + tokens(line));
    reveal_strlit("eng");
    reveal_strlit("lfo");
    assert(lower_seq(eng) =~= "eng"@);
    assert(lower_seq(words[0]) == "eng"@);
    assert(!is_glued("eng"@, "eng"@));
    assert(!is_glued("eng"@, "lfo"@)) by {
        assert("eng"@.take(3) =~= "eng"@);
        assert("eng"@ != "lfo"@) by {
            assert("eng"@[0] != "lfo"@[0]);
        }
    }
    assert(unsigned_digits(d) =~= d);
    assert(all_digits(d));
    assert(d.drop_last() =~= Seq::<char>::empty());
    assert((digit_char(n as nat) as u32) == n + 48);
    assert(d.last() == digit_char(n as nat));
    assert(digits_value(Seq::<char>::empty()) == 0);
    assert(digits_value(d.drop_last()) == 0);
    assert(digits_value(d) == n);
    assert(unsigned_value(d) == n);
    assert(words.skip(2) =~= tokens(line));
}

/// A reported name reads back as what it names: given the name of a
/// destination `d`, `env3dest`, `asenv dest`, and `lfo 1|2 dest` set `d`;
/// given the name of an LFO wave `w`, `lfo 1|2 wave` sets `w`.
pub proof fn lemma_names_read_back(d: AssignableDest, w: LfoWave)
    ensures
        names_dest(dest_name(d), d),
        names_lfo_wave(wave_name(w), w),
{
    reveal_strlit("off");
    reveal_strlit("res");
    reveal_strlit("pitch");
    reveal_strlit("cutoff");
    reveal_strlit("pw");
    reveal_strlit("amp");
    reveal_strlit("sine");
    reveal_strlit("tri");
    reveal_strlit("square");
    reveal_strlit("saw");
    reveal_strlit("sh");
    assert(lower_seq("off"@) =~= "off"@);
    assert(lower_seq("res"@) =~= "res"@);
    assert(lower_seq("pitch"@) =~= "pitch"@);
    assert(lower_seq("cutoff"@) =~= "cutoff"@);
    assert(lower_seq("pw"@) =~= "pw"@);
    assert(lower_seq("amp"@) =~= "amp"@);
    assert(lower_seq("sine"@) =~= "sine"@);
    assert(lower_seq("tri"@) =~= "tri"@);
    assert(lower_seq("square"@) =~= "square"@);
    assert(lower_seq("saw"@) =~= "saw"@);
    assert(lower_seq("sh"@) =~= "sh"@);
    lemma_dest_words(dest_name(d));
    lemma_lfo_wave_words(wave_name(w));
}

} // verus!

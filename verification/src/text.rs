//! Character-level helpers for the terminal command language: whitespace
//! splitting, ASCII lowercasing, literal comparison, and the decimal and
//! floating-point number syntax that command arguments must follow.

use vstd::prelude::*;

verus! {

/// Appends one character to a `String` (std `String::push`).
///
/// Trusted: the new contents are the old contents followed by `c`.
#[verifier::external_body]
pub(crate) fn push_char(s: &mut String, c: char)
    ensures
        final(s)@ == old(s)@.push(c),
{
    s.push(c);
}

/// Unicode `White_Space`, the set that `char::is_whitespace` and
/// `str::split_whitespace` use.
pub open spec fn is_ws(c: char) -> bool {
    ||| ('\u{9}' <= c && c <= '\u{d}')
    ||| c == ' '
    ||| c == '\u{85}'
    ||| c == '\u{a0}'
    ||| c == '\u{1680}'
    ||| ('\u{2000}' <= c && c <= '\u{200a}')
    ||| c == '\u{2028}'
    ||| c == '\u{2029}'
    ||| c == '\u{202f}'
    ||| c == '\u{205f}'
    ||| c == '\u{3000}'
}

pub fn is_whitespace_char(c: char) -> (r: bool)
    ensures
        r == is_ws(c),
{
    ('\u{9}' <= c && c <= '\u{d}') || c == ' ' || c == '\u{85}' || c == '\u{a0}' || c
        == '\u{1680}' || ('\u{2000}' <= c && c <= '\u{200a}') || c == '\u{2028}' || c
        == '\u{2029}' || c == '\u{202f}' || c == '\u{205f}' || c == '\u{3000}'
}

/// Pieces of `s` between runs of whitespace, with `cur` as the piece read so far.
pub open spec fn tokens_from(s: Seq<char>, cur: Seq<char>) -> Seq<Seq<char>>
    decreases s.len(),
{
    if s.len() == 0 {
        if cur.len() > 0 {
            seq![cur]
        } else {
            seq![]
        }
    } else if is_ws(s[0]) {
        (if cur.len() > 0 {
            seq![cur]
        } else {
            seq![]
        }) + tokens_from(s.drop_first(), seq![])
    } else {
        tokens_from(s.drop_first(), cur.push(s[0]))
    }
}

/// The words of `s`, as `str::split_whitespace` yields them.
pub open spec fn tokens(s: Seq<char>) -> Seq<Seq<char>> {
    tokens_from(s, seq![])
}

/// Splits a line into words, as `str::split_whitespace` does.
pub fn split_words(line: &str) -> (r: Vec<String>)
    ensures
        r.deep_view() == tokens(line@),
{
    let n = line.unicode_len();
    let mut out: Vec<String> = Vec::new();
    let mut cur = String::new();
    let mut i: usize = 0;
    assert(line@.skip(0) =~= line@);
    assert(out.deep_view() + tokens_from(line@, cur@) =~= tokens(line@));
    while i < n
        invariant
            n == line@.len(),
            i <= n,
            out.deep_view() + tokens_from(line@.skip(i as int), cur@) == tokens(line@),
        decreases n - i,
    {
        let c = line.get_char(i);
        let ghost rest = line@.skip(i as int);
        assert(rest.len() > 0 && rest[0] == c);
        assert(rest.drop_first() =~= line@.skip(i + 1));
        if is_whitespace_char(c) {
            if cur.unicode_len() > 0 {
                let ghost before = out.deep_view();
                out.push(cur);
                assert(out.deep_view() =~= before.push(cur@));
                assert(before + tokens_from(rest, cur@) =~= out.deep_view() + tokens_from(
                    line@.skip(i + 1),
                    seq![],
                ));
            } else {
                assert(tokens_from(rest, cur@) =~= tokens_from(line@.skip(i + 1), seq![]));
            }
            cur = String::new();
        } else {
            push_char(&mut cur, c);
        }
        i = i + 1;
    }
    assert(line@.skip(n as int) =~= Seq::<char>::empty());
    if cur.unicode_len() > 0 {
        let ghost before = out.deep_view();
        out.push(cur);
        assert(out.deep_view() =~= before.push(cur@));
        assert(before + seq![cur@] =~= out.deep_view());
    } else {
        assert(out.deep_view() + seq![] =~= out.deep_view());
    }
    out
}

/// ASCII lowercase of one character (`char::to_ascii_lowercase`).
pub open spec fn lower_char(c: char) -> char {
    if 'A' <= c && c <= 'Z' {
        ((c as u32) + 32) as char
    } else {
        c
    }
}

pub open spec fn lower_seq(s: Seq<char>) -> Seq<char> {
    s.map_values(|c: char| lower_char(c))
}

pub fn lower_char_exec(c: char) -> (r: char)
    ensures
        r == lower_char(c),
{
    if 'A' <= c && c <= 'Z' {
        ((c as u8) + 32) as char
    } else {
        c
    }
}

/// ASCII lowercase copy of a word (`str::to_ascii_lowercase`).
pub fn to_lower(s: &str) -> (r: String)
    ensures
        r@ == lower_seq(s@),
{
    let n = s.unicode_len();
    let mut out = String::new();
    let mut i: usize = 0;
    while i < n
        invariant
            n == s@.len(),
            i <= n,
            out@ == lower_seq(s@.take(i as int)),
        decreases n - i,
    {
        let c = s.get_char(i);
        push_char(&mut out, lower_char_exec(c));
        assert(lower_seq(s@.take(i + 1)) =~= lower_seq(s@.take(i as int)).push(lower_char(c)));
        i = i + 1;
    }
    assert(s@.take(n as int) =~= s@);
    out
}

/// Whether a word equals a literal, character for character.
pub fn word_is(w: &str, lit: &str) -> (r: bool)
    ensures
        r == (w@ == lit@),
{
    let n = w.unicode_len();
    if n != lit.unicode_len() {
        return false;
    }
    let mut i: usize = 0;
    while i < n
        invariant
            n == w@.len(),
            n == lit@.len(),
            i <= n,
            forall|j: int| 0 <= j < i ==> w@[j] == lit@[j],
        decreases n - i,
    {
        if w.get_char(i) != lit.get_char(i) {
            return false;
        }
        i = i + 1;
    }
    assert(w@ =~= lit@);
    true
}

/// Whether the lowercase form of a word equals a (lowercase) literal,
/// as `str::eq_ignore_ascii_case` against an already-lowercase literal.
pub fn lower_word_is(w: &str, lit: &str) -> (r: bool)
    ensures
        r == (lower_seq(w@) == lit@),
{
    let low = to_lower(w);
    word_is(low.as_str(), lit)
}

pub open spec fn is_digit(c: char) -> bool {
    '0' <= c && c <= '9'
}

pub open spec fn all_digits(s: Seq<char>) -> bool {
    forall|i: int| 0 <= i < s.len() ==> is_digit(#[trigger] s[i])
}

pub open spec fn is_sign(c: char) -> bool {
    c == '+' || c == '-'
}

pub open spec fn is_exp_mark(c: char) -> bool {
    c == 'e' || c == 'E'
}

/// The text after one optional leading sign.
pub open spec fn unsigned_part(s: Seq<char>) -> Seq<char> {
    if s.len() > 0 && is_sign(s[0]) {
        s.drop_first()
    } else {
        s
    }
}

/// `Digit+ | Digit+ '.' Digit* | Digit* '.' Digit+`
pub open spec fn mantissa_ok(m: Seq<char>) -> bool {
    ||| (m.len() > 0 && all_digits(m))
    ||| exists|d: int|
        #![trigger m.take(d)]
        0 <= d < m.len() && m[d] == '.' && all_digits(m.take(d)) && all_digits(m.skip(d + 1))
            && m.len() > 1
}

/// `Sign? Digit+`, the part of an exponent after the `e`.
pub open spec fn exponent_ok(e: Seq<char>) -> bool {
    unsigned_part(e).len() > 0 && all_digits(unsigned_part(e))
}

/// `Number ::= Mantissa Exp?` with `Exp ::= ('e' | 'E') Sign? Digit+`.
pub open spec fn decimal_ok(b: Seq<char>) -> bool {
    exists|k: int|
        #![trigger b.take(k)]
        0 <= k <= b.len() && mantissa_ok(b.take(k)) && (k == b.len() || (is_exp_mark(b[k])
            && exponent_ok(b.skip(k + 1))))
}

/// `inf`, `infinity` or `nan`, in any ASCII case.
pub open spec fn is_special_word(b: Seq<char>) -> bool {
    let l = lower_seq(b);
    ||| l == seq!['i', 'n', 'f']
    ||| l == seq!['i', 'n', 'f', 'i', 'n', 'i', 't', 'y']
    ||| l == seq!['n', 'a', 'n']
}

/// The text that `f32::from_str` accepts:
/// `Sign? ( 'inf' | 'infinity' | 'nan' | Number )`, case-insensitively.
pub open spec fn is_float_literal(s: Seq<char>) -> bool {
    is_special_word(unsigned_part(s)) || decimal_ok(unsigned_part(s))
}

/// The characters of a word, as a vector.
pub fn chars_of(s: &str) -> (r: Vec<char>)
    ensures
        r@ == s@,
{
    let n = s.unicode_len();
    let mut out: Vec<char> = Vec::new();
    let mut i: usize = 0;
    while i < n
        invariant
            n == s@.len(),
            i <= n,
            out@ == s@.take(i as int),
        decreases n - i,
    {
        out.push(s.get_char(i));
        assert(s@.take(i + 1) =~= s@.take(i as int).push(s@[i as int]));
        i = i + 1;
    }
    assert(s@.take(n as int) =~= s@);
    out
}

fn is_digit_exec(c: char) -> (r: bool)
    ensures
        r == is_digit(c),
{
    '0' <= c && c <= '9'
}

/// Whether `v[lo..hi]` is all digits.
fn digits_between(v: &Vec<char>, lo: usize, hi: usize) -> (r: bool)
    requires
        lo <= hi <= v@.len(),
    ensures
        r == all_digits(v@.subrange(lo as int, hi as int)),
{
    let mut i = lo;
    while i < hi
        invariant
            lo <= i <= hi <= v@.len(),
            all_digits(v@.subrange(lo as int, i as int)),
        decreases hi - i,
    {
        if !is_digit_exec(v[i]) {
            assert(v@.subrange(lo as int, hi as int)[i - lo] == v@[i as int]);
            return false;
        }
        assert forall|j: int| 0 <= j < i + 1 - lo implies is_digit(
            #[trigger] v@.subrange(lo as int, i + 1)[j],
        ) by {
            if j < i - lo {
                assert(v@.subrange(lo as int, i + 1)[j] == v@.subrange(lo as int, i as int)[j]);
            }
        }
        i = i + 1;
    }
    true
}

proof fn lemma_mantissa_chars(m: Seq<char>, i: int)
    requires
        mantissa_ok(m),
        0 <= i < m.len(),
    ensures
        is_digit(m[i]) || m[i] == '.',
{
    if m.len() > 0 && all_digits(m) {
    } else {
        let d = choose|d: int|
            #![trigger m.take(d)]
            0 <= d < m.len() && m[d] == '.' && all_digits(m.take(d)) && all_digits(m.skip(d + 1))
                && m.len() > 1;
        if i < d {
            assert(m.take(d)[i] == m[i]);
        } else if i > d {
            assert(m.skip(d + 1)[i - d - 1] == m[i]);
        }
    }
}

/// Whether `v[lo..hi]` is a mantissa.
fn mantissa_between(v: &Vec<char>, lo: usize, hi: usize) -> (r: bool)
    requires
        lo <= hi <= v@.len(),
    ensures
        r == mantissa_ok(v@.subrange(lo as int, hi as int)),
{
    let ghost m = v@.subrange(lo as int, hi as int);
    // Find the first '.'.
    let mut d = lo;
    while d < hi && v[d] != '.'
        invariant
            lo <= d <= hi <= v@.len(),
            forall|j: int| lo <= j < d ==> v@[j] != '.',
        decreases hi - d,
    {
        d = d + 1;
    }
    if d == hi {
        let r = hi > lo && digits_between(v, lo, hi);
        proof {
            if !r && mantissa_ok(m) {
                if !(m.len() > 0 && all_digits(m)) {
                    let e = choose|e: int|
                        #![trigger m.take(e)]
                        0 <= e < m.len() && m[e] == '.' && all_digits(m.take(e)) && all_digits(
                            m.skip(e + 1),
                        ) && m.len() > 1;
                    assert(v@[lo + e] == '.');
                }
            }
        }
        r
    } else {
        let before = digits_between(v, lo, d);
        let after = digits_between(v, d + 1, hi);
        let r = before && after && hi - lo > 1;
        proof {
            let k = d - lo;
            assert(m[k] == '.');
            assert(m.take(k) =~= v@.subrange(lo as int, d as int));
            assert(m.skip(k + 1) =~= v@.subrange(d + 1, hi as int));
            if r {
                assert(mantissa_ok(m));
            } else if mantissa_ok(m) {
                if m.len() > 0 && all_digits(m) {
                    assert(is_digit(m[k]));
                } else {
                    let e = choose|e: int|
                        #![trigger m.take(e)]
                        0 <= e < m.len() && m[e] == '.' && all_digits(m.take(e)) && all_digits(
                            m.skip(e + 1),
                        ) && m.len() > 1;
                    if e < k {
                        assert(v@[lo + e] == '.');
                    } else if e > k {
                        assert(m.take(e)[k] == m[k]);
                    }
                }
            }
        }
        r
    }
}

/// Whether `v[lo..hi]` is a signed digit run.
fn exponent_between(v: &Vec<char>, lo: usize, hi: usize) -> (r: bool)
    requires
        lo <= hi <= v@.len(),
    ensures
        r == exponent_ok(v@.subrange(lo as int, hi as int)),
{
    let ghost e = v@.subrange(lo as int, hi as int);
    let start = if lo < hi && (v[lo] == '+' || v[lo] == '-') {
        lo + 1
    } else {
        lo
    };
    assert(unsigned_part(e) =~= v@.subrange(start as int, hi as int));
    start < hi && digits_between(v, start, hi)
}

/// Whether `v[lo..]` is a decimal number with an optional exponent.
fn decimal_from(v: &Vec<char>, lo: usize) -> (r: bool)
    requires
        lo <= v@.len(),
    ensures
        r == decimal_ok(v@.skip(lo as int)),
{
    let n = v.len();
    let ghost b = v@.skip(lo as int);
    let mut k = lo;
    while k < n && v[k] != 'e' && v[k] != 'E'
        invariant
            lo <= k <= n == v@.len(),
            forall|j: int| lo <= j < k ==> !is_exp_mark(v@[j]),
        decreases n - k,
    {
        k = k + 1;
    }
    let mant = mantissa_between(v, lo, k);
    let r = if k == n {
        mant
    } else {
        mant && exponent_between(v, k + 1, n)
    };
    proof {
        let b = v@.skip(lo as int);
        let kk = k - lo;
        assert(b.len() == n - lo);
        assert(0 <= kk <= b.len());
        assert(mant == mantissa_ok(v@.subrange(lo as int, k as int)));
        assert(b.take(kk) =~= v@.subrange(lo as int, k as int));
        if k < n {
            assert(b[kk] == v@[k as int]);
            assert(b.skip(kk + 1) =~= v@.subrange(k + 1, n as int));
        }
        if r {
            assert(mantissa_ok(b.take(kk)) && (kk == b.len() || (is_exp_mark(b[kk])
                && exponent_ok(b.skip(kk + 1)))));
            assert(decimal_ok(b));
        } else if decimal_ok(b) {
            let w = choose|w: int|
                #![trigger b.take(w)]
                0 <= w <= b.len() && mantissa_ok(b.take(w)) && (w == b.len() || (is_exp_mark(b[w])
                    && exponent_ok(b.skip(w + 1))));
            if w < kk {
                assert(b[w] == v@[lo + w]);
                assert(false);
            } else if w > kk {
                lemma_mantissa_chars(b.take(w), kk);
                assert(b.take(w)[kk] == v@[k as int]);
            }
        }
    }
    r
}

/// Whether a word is accepted by `f32::from_str`.
pub fn is_number_word(s: &str) -> (r: bool)
    ensures
        r == is_float_literal(s@),
{
    let v = chars_of(s);
    let n = v.len();
    let lo: usize = if n > 0 && (v[0] == '+' || v[0] == '-') {
        1
    } else {
        0
    };
    proof {
        assert(unsigned_part(s@) =~= v@.skip(lo as int));
    }
    let m = n - lo;
    let special = if m == 3 {
        let a = lower_char_exec(v[lo]);
        let b = lower_char_exec(v[lo + 1]);
        let c = lower_char_exec(v[lo + 2]);
        (a == 'i' && b == 'n' && c == 'f') || (a == 'n' && b == 'a' && c == 'n')
    } else if m == 8 {
        lower_char_exec(v[lo]) == 'i' && lower_char_exec(v[lo + 1]) == 'n' && lower_char_exec(
            v[lo + 2],
        ) == 'f' && lower_char_exec(v[lo + 3]) == 'i' && lower_char_exec(v[lo + 4]) == 'n'
            && lower_char_exec(v[lo + 5]) == 'i' && lower_char_exec(v[lo + 6]) == 't'
            && lower_char_exec(v[lo + 7]) == 'y'
    } else {
        false
    };
    proof {
        let u = v@.skip(lo as int);
        let l = lower_seq(u);
        assert(l.len() == m);
        if m == 3 {
            assert(l[0] == lower_char(v@[lo as int]));
            assert(l[1] == lower_char(v@[lo + 1]));
            assert(l[2] == lower_char(v@[lo + 2]));
            if special {
                assert(l =~= seq!['i', 'n', 'f'] || l =~= seq!['n', 'a', 'n']);
            }
        } else if m == 8 {
            assert forall|j: int| 0 <= j < 8 implies l[j] == lower_char(
                #[trigger] v@[lo + j],
            ) by {}
            if special {
                assert(l =~= seq!['i', 'n', 'f', 'i', 'n', 'i', 't', 'y']);
            }
        }
        assert(special == is_special_word(u));
    }
    special || decimal_from(&v, lo)
}

/// Decimal value of a digit string.
pub open spec fn digits_value(s: Seq<char>) -> nat
    decreases s.len(),
{
    if s.len() == 0 {
        0
    } else {
        digits_value(s.drop_last()) * 10 + ((s.last() as u32) - ('0' as u32)) as nat
    }
}

/// The text that an unsigned integer `from_str` accepts: `'+'? Digit+`.
pub open spec fn unsigned_digits(s: Seq<char>) -> Seq<char> {
    if s.len() > 0 && s[0] == '+' {
        s.drop_first()
    } else {
        s
    }
}

pub open spec fn is_unsigned_literal(s: Seq<char>) -> bool {
    unsigned_digits(s).len() > 0 && all_digits(unsigned_digits(s))
}

pub open spec fn unsigned_value(s: Seq<char>) -> nat {
    digits_value(unsigned_digits(s))
}

/// Reads an unsigned decimal word. Returns its value when it is a valid
/// literal whose value is at most `max`, and `None` otherwise.
pub fn parse_unsigned_at_most(s: &str, max: u32) -> (r: Option<u32>)
    requires
        max < 0x1000_0000,
    ensures
        r is Some <==> (is_unsigned_literal(s@) && unsigned_value(s@) <= max),
        r matches Some(v) ==> v == unsigned_value(s@),
{
    let v = chars_of(s);
    let n = v.len();
    let lo: usize = if n > 0 && v[0] == '+' {
        1
    } else {
        0
    };
    let ghost u = unsigned_digits(s@);
    assert(u =~= v@.skip(lo as int));
    if lo == n {
        return None;
    }
    let mut i = lo;
    let mut acc: u32 = 0;
    let mut over = false;
    while i < n
        invariant
            lo <= i <= n == v@.len(),
            v@ == s@,
            u == unsigned_digits(s@),
            u == v@.skip(lo as int),
            max < 0x1000_0000,
            all_digits(u.take(i - lo)),
            !over ==> acc == digits_value(u.take(i - lo)) && acc <= max,
            over ==> digits_value(u.take(i - lo)) > max,
        decreases n - i,
    {
        let c = v[i];
        if !is_digit_exec(c) {
            assert(u[i - lo] == c);
            return None;
        }
        let ghost p = u.take(i - lo);
        let ghost q = u.take(i + 1 - lo);
        assert(q.drop_last() =~= p);
        assert(q.last() == c);
        assert forall|j: int| 0 <= j < q.len() implies is_digit(#[trigger] q[j]) by {
            if j < p.len() {
                assert(q[j] == p[j]);
            }
        }
        let d = (c as u32) - ('0' as u32);
        if !over {
            let next = acc * 10 + d;
            if next > max {
                over = true;
            } else {
                acc = next;
            }
        } else {
            assert(digits_value(q) >= digits_value(p) * 10) by (nonlinear_arith)
                requires
                    digits_value(q) == digits_value(p) * 10 + (d as nat),
            ;
            assert(digits_value(p) * 10 >= digits_value(p)) by (nonlinear_arith);
        }
        i = i + 1;
    }
    assert(u.take(n - lo) =~= u);
    if over {
        None
    } else {
        Some(acc)
    }
}

/// Reads an unsigned decimal word. Returns its value when it is a valid
/// literal whose value is below `count`, and `None` otherwise.
pub fn parse_unsigned_below(s: &str, count: usize) -> (r: Option<usize>)
    ensures
        r is Some <==> (is_unsigned_literal(s@) && unsigned_value(s@) < count),
        r matches Some(v) ==> v == unsigned_value(s@),
{
    let v = chars_of(s);
    let n = v.len();
    let lo: usize = if n > 0 && v[0] == '+' {
        1
    } else {
        0
    };
    let ghost u = unsigned_digits(s@);
    assert(u =~= v@.skip(lo as int));
    if lo == n || count == 0 {
        return None;
    }
    let limit = count as u128;
    let mut i = lo;
    let mut acc: u128 = 0;
    let mut over = false;
    while i < n
        invariant
            lo <= i <= n == v@.len(),
            v@ == s@,
            u == unsigned_digits(s@),
            u == v@.skip(lo as int),
            limit == count,
            all_digits(u.take(i - lo)),
            !over ==> acc == digits_value(u.take(i - lo)) && acc < limit,
            over ==> digits_value(u.take(i - lo)) >= limit,
        decreases n - i,
    {
        let c = v[i];
        if !is_digit_exec(c) {
            assert(u[i - lo] == c);
            return None;
        }
        let ghost p = u.take(i - lo);
        let ghost q = u.take(i + 1 - lo);
        assert(q.drop_last() =~= p);
        assert(q.last() == c);
        assert forall|j: int| 0 <= j < q.len() implies is_digit(#[trigger] q[j]) by {
            if j < p.len() {
                assert(q[j] == p[j]);
            }
        }
        let d = ((c as u32) - ('0' as u32)) as u128;
        if !over {
            let next = acc * 10 + d;
            if next >= limit {
                over = true;
            } else {
                acc = next;
            }
        } else {
            assert(digits_value(q) >= digits_value(p) * 10) by (nonlinear_arith)
                requires
                    digits_value(q) == digits_value(p) * 10 + (d as nat),
            ;
            assert(digits_value(p) * 10 >= digits_value(p)) by (nonlinear_arith);
        }
        i = i + 1;
    }
    assert(u.take(n - lo) =~= u);
    if over {
        None
    } else {
        Some(acc as usize)
    }
}

/// `s` without its leading whitespace.
pub open spec fn trim_start_seq(s: Seq<char>) -> Seq<char>
    decreases s.len(),
{
    if s.len() > 0 && is_ws(s[0]) {
        trim_start_seq(s.drop_first())
    } else {
        s
    }
}

/// `s` without its trailing whitespace.
pub open spec fn trim_end_seq(s: Seq<char>) -> Seq<char>
    decreases s.len(),
{
    if s.len() > 0 && is_ws(s.last()) {
        trim_end_seq(s.drop_last())
    } else {
        s
    }
}

/// `s` without leading and trailing whitespace, as `str::trim` gives it.
pub open spec fn trimmed(s: Seq<char>) -> Seq<char> {
    trim_end_seq(trim_start_seq(s))
}

proof fn lemma_trim_start_skip(s: Seq<char>, i: int)
    requires
        0 <= i <= s.len(),
        forall|j: int| 0 <= j < i ==> is_ws(#[trigger] s[j]),
    ensures
        trim_start_seq(s) == trim_start_seq(s.skip(i)),
    decreases i,
{
    if i > 0 {
        assert(s.drop_first().skip(i - 1) =~= s.skip(i));
        assert forall|j: int| 0 <= j < i - 1 implies is_ws(#[trigger] s.drop_first()[j]) by {
            assert(s.drop_first()[j] == s[j + 1]);
        }
        lemma_trim_start_skip(s.drop_first(), i - 1);
    } else {
        assert(s.skip(0) =~= s);
    }
}

proof fn lemma_trim_end_take(s: Seq<char>, k: int)
    requires
        0 <= k <= s.len(),
        forall|j: int| k <= j < s.len() ==> is_ws(#[trigger] s[j]),
    ensures
        trim_end_seq(s) == trim_end_seq(s.take(k)),
    decreases s.len() - k,
{
    if k < s.len() {
        assert(s.drop_last().take(k) =~= s.take(k));
        assert forall|j: int| k <= j < s.drop_last().len() implies is_ws(
            #[trigger] s.drop_last()[j],
        ) by {
            assert(s.drop_last()[j] == s[j]);
        }
        lemma_trim_end_take(s.drop_last(), k);
    } else {
        assert(s.take(k) =~= s);
    }
}

/// `s` without leading and trailing whitespace (`str::trim`).
pub fn trim_text(s: &str) -> (r: String)
    ensures
        r@ == trimmed(s@),
{
    let n = s.unicode_len();
    let mut lo: usize = 0;
    while lo < n && is_whitespace_char(s.get_char(lo))
        invariant
            n == s@.len(),
            lo <= n,
            forall|j: int| 0 <= j < lo ==> is_ws(#[trigger] s@[j]),
        decreases n - lo,
    {
        lo = lo + 1;
    }
    proof {
        lemma_trim_start_skip(s@, lo as int);
        if lo < n {
            assert(s@.skip(lo as int)[0] == s@[lo as int]);
        }
    }
    let ghost t = s@.skip(lo as int);
    assert(trim_start_seq(t) == t);
    let mut hi: usize = n;
    while hi > lo && is_whitespace_char(s.get_char(hi - 1))
        invariant
            n == s@.len(),
            lo <= hi <= n,
            forall|j: int| hi <= j < n ==> is_ws(#[trigger] s@[j]),
        decreases hi - lo,
    {
        hi = hi - 1;
    }
    proof {
        assert forall|j: int| hi - lo <= j < t.len() implies is_ws(#[trigger] t[j]) by {
            assert(t[j] == s@[lo + j]);
        }
        lemma_trim_end_take(t, hi - lo);
        let u = t.take(hi - lo);
        if hi > lo {
            assert(u.last() == s@[hi - 1]);
        }
        assert(u =~= s@.subrange(lo as int, hi as int));
    }
    let mut out = String::new();
    let mut i: usize = lo;
    while i < hi
        invariant
            n == s@.len(),
            lo <= i <= hi <= n,
            out@ == s@.subrange(lo as int, i as int),
        decreases hi - i,
    {
        push_char(&mut out, s.get_char(i));
        assert(s@.subrange(lo as int, i + 1) =~= s@.subrange(lo as int, i as int).push(
            s@[i as int],
        ));
        i = i + 1;
    }
    out
}

} // verus!

//! Line input of the laptop hosts: choosing a listed device or port by its
//! number, and the line that leaves line-command mode.

use vstd::prelude::*;
use crate::text::{
    is_unsigned_literal, lower_seq, lower_word_is, parse_unsigned_below, trim_text, trimmed,
    unsigned_value,
};

verus! {

/// The entry a typed line picks from a list of `count`: the line, trimmed,
/// must be a decimal number (an optional `+`, then digits) below `count`.
pub open spec fn spec_choice(line: Seq<char>, count: nat) -> Option<usize> {
    let t = trimmed(line);
    if is_unsigned_literal(t) && unsigned_value(t) < count {
        Some(unsigned_value(t) as usize)
    } else {
        None
    }
}

/// Reads a list choice typed by the user; `None` asks the host to prompt again.
pub fn parse_choice(line: &str, count: usize) -> (r: Option<usize>)
    ensures
        r == spec_choice(line@, count as nat),
{
    let t = trim_text(line);
    parse_unsigned_below(t.as_str(), count)
}

/// Whether a line asks to quit line-command mode: `q` in either case,
/// surrounding whitespace ignored.
pub fn is_quit_line(line: &str) -> (r: bool)
    ensures
        r == (lower_seq(trimmed(line@)) == "q"@),
{
    let t = trim_text(line);
    lower_word_is(t.as_str(), "q")
}

} // verus!

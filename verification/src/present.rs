//! Transcript presenter: deterministic rendering of segments to
//! line-oriented text.
//!
//! Each segment becomes exactly one line, `[start - end]: text`, with
//! segments emitted in the order received — never reordered or filtered.
//! Time offsets are rendered as seconds with a stable, parseable
//! fixed-precision fraction: centiseconds with trailing zeros trimmed, so
//! 0 centiseconds renders `0`, 120 renders `1.2`, and 123 renders `1.23`.

use vstd::prelude::*;
use vstd::string::StringExecFns;
use crate::adapter::TranscriptSegment;

verus! {

/// The decimal digit character for a value below ten.
pub open spec fn spec_digit(d: int) -> char {
    if d == 0 {
        '0'
    } else if d == 1 {
        '1'
    } else if d == 2 {
        '2'
    } else if d == 3 {
        '3'
    } else if d == 4 {
        '4'
    } else if d == 5 {
        '5'
    } else if d == 6 {
        '6'
    } else if d == 7 {
        '7'
    } else if d == 8 {
        '8'
    } else {
        '9'
    }
}

/// The decimal rendering of a natural number, most significant digit
/// first, without leading zeros (`0` renders `0`).
pub open spec fn spec_decimal(n: nat) -> Seq<char>
    decreases n,
{
    if n < 10 {
        seq![spec_digit(n as int)]
    } else {
        spec_decimal(n / 10) + seq![spec_digit((n % 10) as int)]
    }
}

/// The rendering of a centisecond offset as seconds: the whole seconds,
/// then the fraction with trailing zeros trimmed.
pub open spec fn spec_offset(cs: int) -> Seq<char> {
    let secs = (cs / 100) as nat;
    let frac = cs % 100;
    if frac == 0 {
        spec_decimal(secs)
    } else if frac % 10 == 0 {
        spec_decimal(secs) + seq!['.', spec_digit(frac / 10)]
    } else {
        spec_decimal(secs) + seq!['.', spec_digit(frac / 10), spec_digit(frac % 10)]
    }
}

/// The one line a segment renders to: `[start - end]: text`.
pub open spec fn spec_render_segment(seg: TranscriptSegment) -> Seq<char> {
    seq!['['] + spec_offset(seg.start_cs as int) + seq![' ', '-', ' '] + spec_offset(
        seg.end_cs as int,
    ) + seq![']', ':', ' '] + seg.text@
}

/// The one-character string for a decimal digit.
fn digit_str(d: u64) -> (r: &'static str)
    requires
        d < 10,
    ensures
        r@ == seq![spec_digit(d as int)],
{
    proof {
        reveal_strlit("0");
        reveal_strlit("1");
        reveal_strlit("2");
        reveal_strlit("3");
        reveal_strlit("4");
        reveal_strlit("5");
        reveal_strlit("6");
        reveal_strlit("7");
        reveal_strlit("8");
        reveal_strlit("9");
    }
    match d {
        0 => "0",
        1 => "1",
        2 => "2",
        3 => "3",
        4 => "4",
        5 => "5",
        6 => "6",
        7 => "7",
        8 => "8",
        _ => "9",
    }
}

/// Render a natural number in decimal.
fn decimal_u64(n: u64) -> (s: String)
    ensures
        s@ == spec_decimal(n as nat),
    decreases n,
{
    if n < 10 {
        digit_str(n).to_owned()
    } else {
        let mut s = decimal_u64(n / 10);
        s.append(digit_str(n % 10));
        s
    }
}

/// Render a centisecond offset as seconds with the trailing-zero-trimmed
/// fraction.
fn render_offset(cs: u64) -> (s: String)
    ensures
        s@ == spec_offset(cs as int),
{
    proof {
        reveal_strlit(".");
    }
    let secs = cs / 100;
    let frac = cs % 100;
    if frac == 0 {
        decimal_u64(secs)
    } else if frac % 10 == 0 {
        let mut s = decimal_u64(secs);
        s.append(".");
        s.append(digit_str(frac / 10));
        proof {
            assert(s@ =~= spec_offset(cs as int));
        }
        s
    } else {
        let mut s = decimal_u64(secs);
        s.append(".");
        s.append(digit_str(frac / 10));
        s.append(digit_str(frac % 10));
        proof {
            assert(s@ =~= spec_offset(cs as int));
        }
        s
    }
}

/// Render one segment as its transcript line, `[start - end]: text`.
pub fn render_segment(seg: &TranscriptSegment) -> (s: String)
    ensures
        s@ == spec_render_segment(*seg),
{
    proof {
        reveal_strlit("[");
        reveal_strlit(" - ");
        reveal_strlit("]: ");
    }
    let mut s = "[".to_owned();
    let start = render_offset(seg.start_cs);
    s.append(start.as_str());
    s.append(" - ");
    let end = render_offset(seg.end_cs);
    s.append(end.as_str());
    s.append("]: ");
    s.append(seg.text.as_str());
    proof {
        assert(s@ =~= spec_render_segment(*seg));
    }
    s
}

/// Render a whole transcript, one line per segment, in exactly the order
/// the segments were received: line `i` is the rendering of segment `i`,
/// so nothing is reordered, dropped, or added.
pub fn render_transcript(segs: &Vec<TranscriptSegment>) -> (lines: Vec<String>)
    ensures
        lines@.len() == segs@.len(),
        forall|i: int|
            0 <= i < segs@.len() ==> lines@[i]@ == spec_render_segment(#[trigger] segs@[i]),
{
    let mut lines: Vec<String> = Vec::new();
    let mut i: usize = 0;
    while i < segs.len()
        invariant
            i <= segs@.len(),
            lines@.len() == i,
            forall|j: int|
                0 <= j < i ==> lines@[j]@ == spec_render_segment(#[trigger] segs@[j]),
        decreases segs@.len() - i,
    {
        let line = render_segment(&segs[i]);
        lines.push(line);
        i = i + 1;
    }
    lines
}

} // verus!

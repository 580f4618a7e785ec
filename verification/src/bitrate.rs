//! Frame-level packet-size extraction: parses the probe tool's line-oriented
//! frame dump into an ordered, densely indexed per-frame size sequence.

use vstd::prelude::*;

use crate::models::{BitrateData, BitrateFrame};

verus! {

broadcast use vstd::string::group_string_axioms;

use vstd::string::StringExecFns;
use vstd::arithmetic::div_mod::lemma_fundamental_div_mod;

/// The whitespace stripped from both ends of a line before parsing.
pub open spec fn spec_is_space(c: char) -> bool {
    c == ' ' || c == '\t' || c == '\n' || c == '\r' || c == '\u{b}' || c == '\u{c}'
}

fn is_space_char(c: char) -> (r: bool)
    ensures
        r == spec_is_space(c),
{
    c == ' ' || c == '\t' || c == '\n' || c == '\r' || c == '\u{b}' || c == '\u{c}'
}

pub open spec fn spec_trim_start(l: Seq<char>) -> Seq<char>
    decreases l.len(),
{
    if l.len() > 0 && spec_is_space(l.first()) {
        spec_trim_start(l.drop_first())
    } else {
        l
    }
}

pub open spec fn spec_trim_end(l: Seq<char>) -> Seq<char>
    decreases l.len(),
{
    if l.len() > 0 && spec_is_space(l.last()) {
        spec_trim_end(l.drop_last())
    } else {
        l
    }
}

/// The line with whitespace stripped from both ends.
pub open spec fn spec_trim(l: Seq<char>) -> Seq<char> {
    spec_trim_end(spec_trim_start(l))
}

pub open spec fn spec_is_digit(c: char) -> bool {
    '0' as u32 <= c as u32 <= '9' as u32
}

fn is_digit_char(c: char) -> (r: bool)
    ensures
        r == spec_is_digit(c),
{
    let u = c as u32;
    48 <= u && u <= 57
}

pub open spec fn spec_digit_val(c: char) -> int {
    c as u32 - '0' as u32
}

pub open spec fn spec_all_digits(s: Seq<char>) -> bool {
    s.len() > 0 && (forall|i: int| 0 <= i < s.len() ==> spec_is_digit(s[i]))
}

/// The number a digit sequence denotes in decimal.
pub open spec fn spec_digits_value(s: Seq<char>) -> int
    decreases s.len(),
{
    if s.len() == 0 {
        0
    } else {
        spec_digits_value(s.drop_last()) * 10 + spec_digit_val(s.last())
    }
}

/// A line parses when, after trimming, it is one or more decimal digits
/// denoting a value that fits in 64 bits; anything else is noise.
pub open spec fn spec_parse_u64(l: Seq<char>) -> Option<u64> {
    let t = spec_trim(l);
    if !spec_all_digits(t) {
        None
    } else if spec_digits_value(t) > u64::MAX {
        None
    } else {
        Some(spec_digits_value(t) as u64)
    }
}

proof fn lemma_digits_value_nonneg(s: Seq<char>)
    requires
        forall|i: int| 0 <= i < s.len() ==> spec_is_digit(s[i]),
    ensures
        spec_digits_value(s) >= 0,
    decreases s.len(),
{
    if s.len() > 0 {
        lemma_digits_value_nonneg(s.drop_last());
    }
}

proof fn lemma_digits_value_mono(s: Seq<char>, m: int)
    requires
        forall|i: int| 0 <= i < s.len() ==> spec_is_digit(s[i]),
        0 <= m <= s.len(),
    ensures
        spec_digits_value(s.take(m)) <= spec_digits_value(s),
    decreases s.len() - m,
{
    if m == s.len() {
        assert(s.take(m) =~= s);
    } else {
        lemma_digits_value_mono(s, m + 1);
        assert(s.take(m + 1).drop_last() =~= s.take(m));
        lemma_digits_value_nonneg(s.take(m));
    }
}

/// Parses the line `cs[from..to]` as a trimmed decimal `u64`.
fn parse_line_range(cs: &Vec<char>, from: usize, to: usize) -> (r: Option<u64>)
    requires
        from <= to <= cs@.len(),
    ensures
        r == spec_parse_u64(cs@.subrange(from as int, to as int)),
{
    let mut i = from;
    while i < to && is_space_char(cs[i])
        invariant
            from <= i <= to <= cs@.len(),
            spec_trim_start(cs@.subrange(from as int, to as int)) == spec_trim_start(
                cs@.subrange(i as int, to as int),
            ),
        decreases to - i,
    {
        proof {
            assert(cs@.subrange(i as int, to as int).drop_first() =~= cs@.subrange(
                i as int + 1,
                to as int,
            ));
        }
        i += 1;
    }
    proof {
        assert(spec_trim_start(cs@.subrange(i as int, to as int)) == cs@.subrange(
            i as int,
            to as int,
        ));
    }
    let mut j = to;
    while j > i && is_space_char(cs[j - 1])
        invariant
            i <= j <= to <= cs@.len(),
            spec_trim_end(cs@.subrange(i as int, to as int)) == spec_trim_end(
                cs@.subrange(i as int, j as int),
            ),
        decreases j,
    {
        proof {
            assert(cs@.subrange(i as int, j as int).drop_last() =~= cs@.subrange(
                i as int,
                j as int - 1,
            ));
        }
        j -= 1;
    }
    proof {
        assert(spec_trim_end(cs@.subrange(i as int, j as int)) == cs@.subrange(i as int, j as int));
    }
    let ghost t = cs@.subrange(i as int, j as int);
    if i == j {
        return None;
    }
    let mut acc: u64 = 0;
    let mut k = i;
    while k < j
        invariant
            from <= i <= k <= j <= to <= cs@.len(),
            i < j,
            t == cs@.subrange(i as int, j as int),
            spec_trim(cs@.subrange(from as int, to as int)) == t,
            forall|q: int| i <= q < k ==> spec_is_digit(cs@[q]),
            acc as int == spec_digits_value(cs@.subrange(i as int, k as int)),
        decreases j - k,
    {
        let c = cs[k];
        if !is_digit_char(c) {
            proof {
                assert(!spec_all_digits(t)) by {
                    assert(t[k - i] == cs@[k as int]);
                }
            }
            return None;
        }
        let d: u64 = (c as u32 - 48) as u64;
        proof {
            assert(d as int == spec_digit_val(cs@[k as int]));
        }
        let q = (u64::MAX - d) / 10;
        proof {
            assert(cs@.subrange(i as int, k as int + 1).drop_last() =~= cs@.subrange(
                i as int,
                k as int,
            ));
            lemma_fundamental_div_mod((u64::MAX - d) as int, 10);
        }
        if acc > q {
            proof {
                if spec_all_digits(t) {
                    assert(forall|w: int| 0 <= w < t.len() ==> spec_is_digit(#[trigger] t[w]));
                    assert(forall|w: int| i <= w < j ==> spec_is_digit(cs@[w])) by {
                        assert(forall|w: int| i <= w < j ==> cs@[w] == t[w - i]);
                    }
                    lemma_digits_value_mono(t, k as int + 1 - i);
                    assert(t.take(k as int + 1 - i) =~= cs@.subrange(i as int, k as int + 1));
                    assert(spec_digits_value(cs@.subrange(i as int, k as int + 1)) > u64::MAX);
                }
            }
            return None;
        }
        acc = acc * 10 + d;
        k += 1;
    }
    proof {
        assert(t =~= cs@.subrange(i as int, k as int));
        assert(forall|w: int| 0 <= w < t.len() ==> spec_is_digit(#[trigger] t[w])) by {
            assert(forall|w: int| 0 <= w < t.len() ==> t[w] == cs@[w + i]);
        }
        assert(spec_all_digits(t));
    }
    Some(acc)
}

/// The segments of `s` between newline characters, in order; the segment
/// after the last newline is included even when empty.
pub open spec fn spec_split_lines(s: Seq<char>) -> Seq<Seq<char>>
    decreases s.len(),
{
    if s.len() == 0 {
        seq![Seq::empty()]
    } else if s.last() == '\n' {
        spec_split_lines(s.drop_last()).push(Seq::empty())
    } else {
        let r = spec_split_lines(s.drop_last());
        r.update(r.len() - 1, r.last().push(s.last()))
    }
}

proof fn lemma_split_lines_len(s: Seq<char>)
    ensures
        1 <= spec_split_lines(s).len() <= s.len() + 1,
    decreases s.len(),
{
    if s.len() > 0 {
        lemma_split_lines_len(s.drop_last());
    }
}

/// The values of the lines that parse, in line order.
pub open spec fn spec_parsed_sizes(lines: Seq<Seq<char>>) -> Seq<u64>
    decreases lines.len(),
{
    if lines.len() == 0 {
        Seq::empty()
    } else {
        let rest = spec_parsed_sizes(lines.drop_last());
        match spec_parse_u64(lines.last()) {
            Some(v) => rest.push(v),
            None => rest,
        }
    }
}

proof fn lemma_parsed_sizes_len(lines: Seq<Seq<char>>)
    ensures
        spec_parsed_sizes(lines).len() <= lines.len(),
    decreases lines.len(),
{
    if lines.len() > 0 {
        lemma_parsed_sizes_len(lines.drop_last());
    }
}

/// The packet sizes the frame dump `s` yields: each line parsed as a trimmed
/// decimal integer, lines that do not parse dropped, order preserved.
pub open spec fn spec_packet_sizes(s: Seq<char>) -> Seq<u64> {
    spec_parsed_sizes(spec_split_lines(s))
}

pub proof fn lemma_packet_sizes_count(s: Seq<char>)
    ensures
        spec_packet_sizes(s).len() <= s.len() + 1,
{
    lemma_split_lines_len(s);
    lemma_parsed_sizes_len(spec_split_lines(s));
}

/// The characters of `s`, in order.
fn chars_of(s: &str) -> (v: Vec<char>)
    ensures
        v@ == s@,
{
    let mut v: Vec<char> = Vec::new();
    for c in it: s.chars()
        invariant
            v@ == it.history(),
    {
        v.push(c);
    }
    proof {
        assert(v@ =~= s@);
    }
    v
}

/// Splits `cs` at newlines and parses each line, keeping the values of the
/// lines that parse, in order.
fn parse_packet_sizes(cs: &Vec<char>) -> (sizes: Vec<u64>)
    ensures
        sizes@ == spec_packet_sizes(cs@),
{
    let n = cs.len();
    let mut sizes: Vec<u64> = Vec::new();
    let mut st: usize = 0;
    let mut i: usize = 0;
    proof {
        assert(cs@.take(0) =~= Seq::<char>::empty());
        assert(spec_split_lines(cs@.take(0)).last() =~= cs@.subrange(0, 0));
        assert(spec_split_lines(cs@.take(0)).drop_last() =~= Seq::<Seq<char>>::empty());
    }
    while i < n
        invariant
            st <= i <= n,
            n == cs@.len(),
            spec_split_lines(cs@.take(i as int)).len() >= 1,
            spec_split_lines(cs@.take(i as int)).last() == cs@.subrange(st as int, i as int),
            sizes@ == spec_parsed_sizes(spec_split_lines(cs@.take(i as int)).drop_last()),
        decreases n - i,
    {
        let ghost lines = spec_split_lines(cs@.take(i as int));
        proof {
            assert(cs@.take(i as int + 1).drop_last() =~= cs@.take(i as int));
            assert(cs@.take(i as int + 1).last() == cs@[i as int]);
            lemma_split_lines_len(cs@.take(i as int + 1));
        }
        let c = cs[i];
        if c == '\n' {
            match parse_line_range(cs, st, i) {
                Some(v) => sizes.push(v),
                None => (),
            }
            proof {
                let lines2 = spec_split_lines(cs@.take(i as int + 1));
                assert(lines2 == lines.push(Seq::<char>::empty()));
                assert(lines2.drop_last() =~= lines);
                assert(lines2.last() =~= cs@.subrange(i as int + 1, i as int + 1));
            }
            st = i + 1;
        } else {
            proof {
                let lines2 = spec_split_lines(cs@.take(i as int + 1));
                assert(lines2 == lines.update(lines.len() - 1, lines.last().push(cs@[i as int])));
                assert(lines2.drop_last() =~= lines.drop_last());
                assert(lines2.last() =~= cs@.subrange(st as int, i as int + 1));
            }
        }
        i += 1;
    }
    proof {
        assert(cs@.take(n as int) =~= cs@);
    }
    match parse_line_range(cs, st, n) {
        Some(v) => sizes.push(v),
        None => (),
    }
    sizes
}

/// Extracts the per-frame packet sizes from the probe tool's frame-dump
/// output for the source `filename`. Each output line is parsed
/// independently; lines that do not parse are dropped as noise, and frame
/// indices are assigned densely over the lines that parsed, starting at
/// zero. When no line parses the extraction fails with the no-frame-data
/// error; an empty success is never returned.
pub fn extract_bitrate_data(filename: String, probe_output: &str) -> (r: Result<
    BitrateData,
    String,
>)
    requires
        probe_output@.len() <= u32::MAX,
    ensures
        match r {
            Ok(d) => {
                let sizes = spec_packet_sizes(probe_output@);
                &&& sizes.len() > 0
                &&& d.id == filename
                &&& d.frames@.len() == sizes.len()
                &&& forall|k: int|
                    0 <= k < sizes.len() ==> (#[trigger] d.frames@[k]).frame_num as int == k
                        && d.frames@[k].packet_size == sizes[k]
            },
            Err(e) => spec_packet_sizes(probe_output@).len() == 0 && e@
                == "No frame data could be extracted from file"@,
        },
{
    let cs = chars_of(probe_output);
    let sizes = parse_packet_sizes(&cs);
    if sizes.len() == 0 {
        return Err(String::from_str("No frame data could be extracted from file"));
    }
    proof {
        lemma_packet_sizes_count(probe_output@);
    }
    let mut frames: Vec<BitrateFrame> = Vec::new();
    let mut i: usize = 0;
    while i < sizes.len()
        invariant
            i <= sizes@.len(),
            sizes@.len() <= 0x1_0000_0000,
            frames@.len() == i,
            forall|k: int|
                0 <= k < i ==> (#[trigger] frames@[k]).frame_num as int == k
                    && frames@[k].packet_size == sizes@[k],
        decreases sizes@.len() - i,
    {
        frames.push(BitrateFrame { frame_num: i as u32, packet_size: sizes[i] });
        i += 1;
    }
    Ok(BitrateData { id: filename, frames })
}

} // verus!

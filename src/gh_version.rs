//! The version of the GitHub command-line tool and its minimum.
use vstd::prelude::*;
use crate::text::{parse_u32, parsed_u32, split_char, split_seq};

verus! {

/// Oldest supported version of the GitHub command-line tool.
pub const MIN_GH_VERSION: &'static str = "2.20.0";

/// Whether std counts a character as white space (the Unicode White_Space property).
pub uninterp spec fn white_space(c: char) -> bool;

/// Relies on char::is_whitespace: true for characters with the Unicode
/// White_Space property.
#[verifier::external_body]
fn is_white_space(c: char) -> (r: bool)
    ensures
        r == white_space(c),
{
    c.is_whitespace()
}

/// The first line of a text, as `str::lines` gives it: up to the first
/// `\n`, without a `\r` before it; none for an empty text.
pub open spec fn first_line(s: Seq<char>) -> Option<Seq<char>> {
    if s.len() == 0 {
        None
    } else {
        let l = split_seq(s, '\n')[0];
        if l.len() > 0 && l.last() == '\r' && l.len() < s.len() {
            Some(l.drop_last())
        } else {
            Some(l)
        }
    }
}

/// The white-space-separated words of a text, in order.
pub open spec fn words(s: Seq<char>) -> Seq<Seq<char>>
    decreases s.len(),
{
    if s.len() == 0 {
        seq![]
    } else {
        let w = words(s.drop_last());
        let c = s.last();
        if white_space(c) {
            w
        } else if s.len() > 1 && !white_space(s[s.len() - 2]) {
            w.update(w.len() - 1, w.last().push(c))
        } else {
            w.push(seq![c])
        }
    }
}

proof fn lemma_words_nonempty(s: Seq<char>)
    requires
        s.len() > 0,
        !white_space(s.last()),
    ensures
        words(s).len() > 0,
    decreases s.len(),
{
    if s.len() > 1 && !white_space(s[s.len() - 2]) {
        assert(s.drop_last().last() == s[s.len() - 2]);
        lemma_words_nonempty(s.drop_last());
    }
}

/// The words of a text.
pub(crate) fn split_words(s: &str) -> (r: Vec<String>)
    ensures
        r@.map_values(|p: String| p@) == words(s@),
{
    let n = s.unicode_len();
    let mut out: Vec<String> = Vec::new();
    let mut start: usize = 0;
    let mut in_word = false;
    let mut i: usize = 0;
    assert(s@.subrange(0, 0) =~= Seq::<char>::empty());
    while i < n
        invariant
            n == s@.len(),
            start <= i <= n,
            in_word ==> start < i && !white_space(s@[i - 1]),
            !in_word ==> (i == 0 || white_space(s@[i - 1])),
            in_word ==> out@.map_values(|p: String| p@).push(s@.subrange(start as int, i as int)) == words(
                s@.subrange(0, i as int),
            ),
            !in_word ==> out@.map_values(|p: String| p@) == words(s@.subrange(0, i as int)),
        decreases n - i,
    {
        let c = s.get_char(i);
        let ghost pre = s@.subrange(0, i as int);
        let ghost cur = s@.subrange(0, i + 1);
        assert(cur.drop_last() == pre);
        assert(cur.last() == c);
        if i > 0 {
            assert(cur[cur.len() - 2] == s@[i - 1]);
        }
        if is_white_space(c) {
            if in_word {
                let ghost before = out@.map_values(|p: String| p@);
                out.push(String::from_str(s.substring_char(start, i)));
                assert(out@.map_values(|p: String| p@) =~= before.push(s@.subrange(start as int, i as int)));
                in_word = false;
            }
        } else {
            if in_word {
                proof {
                    lemma_words_nonempty(pre);
                }
                assert(s@.subrange(start as int, i + 1) =~= s@.subrange(start as int, i as int).push(c));
                assert(out@.map_values(|p: String| p@).push(s@.subrange(start as int, i + 1)) =~= words(cur));
            } else {
                start = i;
                in_word = true;
                assert(s@.subrange(start as int, i + 1) =~= seq![c]);
                assert(out@.map_values(|p: String| p@).push(s@.subrange(start as int, i + 1)) =~= words(cur));
            }
        }
        i = i + 1;
    }
    if in_word {
        let ghost before = out@.map_values(|p: String| p@);
        out.push(String::from_str(s.substring_char(start, n)));
        assert(out@.map_values(|p: String| p@) =~= before.push(s@.subrange(start as int, n as int)));
    }
    assert(s@.subrange(0, n as int) == s@);
    out
}

/// The version in the tool's `version` output: the third word of its
/// first line (`gh version 2.32.0 (2023-06-20)`).
pub open spec fn version_in(output: Seq<char>) -> Option<Seq<char>> {
    match first_line(output) {
        Some(l) => if words(l).len() > 2 {
            Some(words(l)[2])
        } else {
            None
        },
        None => None,
    }
}

pub fn parse_gh_version(output: &str) -> (r: Option<String>)
    ensures
        match r {
            Some(v) => version_in(output@) == Some(v@),
            None => version_in(output@) is None,
        },
{
    let n = output.unicode_len();
    if n == 0 {
        return None;
    }
    let lines = split_char(output, '\n');
    let ghost lv = lines@.map_values(|p: String| p@);
    proof {
        crate::text::lemma_split_nonempty(output@, '\n');
    }
    assert(lv[0] == lines@[0]@);
    let first = lines[0].as_str();
    let m = first.unicode_len();
    let line = if m > 0 && first.get_char(m - 1) == '\r' && m < n {
        first.substring_char(0, m - 1)
    } else {
        first
    };
    assert(m > 0 && first@.last() == '\r' && m < n ==> line@ == first@.drop_last());
    let ws = split_words(line);
    let ghost wv = ws@.map_values(|p: String| p@);
    if ws.len() > 2 {
        assert(wv[2] == ws@[2]@);
        Some(ws[2].clone())
    } else {
        None
    }
}

/// The numeric parts of a dotted version; none when a part is not a number.
pub open spec fn version_parts(v: Seq<char>) -> Option<Seq<u32>> {
    let parts = split_seq(v, '.');
    if forall|i: int| 0 <= i < parts.len() ==> (#[trigger] parsed_u32(parts[i])) is Some {
        Some(parts.map_values(|p: Seq<char>| parsed_u32(p)->Some_0))
    } else {
        None
    }
}

pub fn parse_version_parts(version: &str) -> (r: Option<Vec<u32>>)
    ensures
        match r {
            Some(v) => version_parts(version@) == Some(v@),
            None => version_parts(version@) is None,
        },
{
    let parts = split_char(version, '.');
    let ghost pv = parts@.map_values(|p: String| p@);
    let mut out: Vec<u32> = Vec::new();
    let mut i: usize = 0;
    while i < parts.len()
        invariant
            i <= parts@.len(),
            pv == parts@.map_values(|p: String| p@),
            pv == split_seq(version@, '.'),
            out@.len() == i,
            forall|k: int| 0 <= k < i ==> (#[trigger] parsed_u32(pv[k])) == Some(out@[k]),
        decreases parts.len() - i,
    {
        assert(pv[i as int] == parts@[i as int]@);
        match parse_u32(parts[i].as_str()) {
            Some(x) => {
                out.push(x);
            },
            None => {
                assert(parsed_u32(pv[i as int]) is None);
                assert(parsed_u32(split_seq(version@, '.')[i as int]) is None);
                return None;
            },
        }
        i = i + 1;
    }
    assert(out@ =~= pv.map_values(|p: Seq<char>| parsed_u32(p)->Some_0));
    Some(out)
}

/// Part `i` of a version, 0 when it has fewer parts.
pub open spec fn part_or_zero(v: Seq<u32>, i: int) -> u32 {
    if i < v.len() {
        v[i]
    } else {
        0
    }
}

/// Whether `v` is at least `m` on major, minor and patch, compared in that order.
pub open spec fn at_least(v: Seq<u32>, m: Seq<u32>) -> bool {
    if part_or_zero(v, 0) != part_or_zero(m, 0) {
        part_or_zero(v, 0) > part_or_zero(m, 0)
    } else if part_or_zero(v, 1) != part_or_zero(m, 1) {
        part_or_zero(v, 1) > part_or_zero(m, 1)
    } else {
        part_or_zero(v, 2) >= part_or_zero(m, 2)
    }
}

fn part(v: &Vec<u32>, i: usize) -> (r: u32)
    ensures
        r == part_or_zero(v@, i as int),
{
    if i < v.len() {
        v[i]
    } else {
        0
    }
}

/// Compares two dotted versions; none when either does not parse.
pub fn version_meets_minimum(version: &str, minimum: &str) -> (r: Option<bool>)
    ensures
        match (version_parts(version@), version_parts(minimum@)) {
            (Some(v), Some(m)) => r == Some(at_least(v, m)),
            _ => r is None,
        },
{
    let v = match parse_version_parts(version) {
        Some(v) => v,
        None => {
            return None;
        },
    };
    let m = match parse_version_parts(minimum) {
        Some(m) => m,
        None => {
            return None;
        },
    };
    let mut i: usize = 0;
    while i < 3
        invariant
            i <= 3,
            version_parts(version@) == Some(v@),
            version_parts(minimum@) == Some(m@),
            forall|k: int| 0 <= k < i ==> part_or_zero(v@, k) == part_or_zero(m@, k),
        decreases 3 - i,
    {
        let a = part(&v, i);
        let b = part(&m, i);
        if a > b {
            return Some(true);
        } else if a < b {
            return Some(false);
        }
        i = i + 1;
    }
    Some(true)
}

} // verus!

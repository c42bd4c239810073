//! Total coercions of raw text into booleans, unsigned integers, comma
//! separated lists and join methods.

use vstd::prelude::*;
use crate::text::{lower_of, trim_of, lowercase, trim, owned, push_char};

verus! {

pub open spec fn is_digit(c: char) -> bool {
    '0' <= c && c <= '9'
}

pub open spec fn all_digits(s: Seq<char>) -> bool {
    forall|i: int| 0 <= i < s.len() ==> is_digit(#[trigger] s[i])
}

/// The number written by a string of decimal digits.
pub open spec fn digits_value(s: Seq<char>) -> nat
    decreases s.len(),
{
    if s.len() == 0 {
        0
    } else {
        digits_value(s.drop_last()) * 10 + (s.last() as nat - '0' as nat) as nat
    }
}

/// An unsigned decimal number with an optional leading `+`, if it is at
/// most `max`.
pub open spec fn unsigned_of(s: Seq<char>, max: nat) -> Option<nat> {
    let d = if s.len() > 0 && s[0] == '+' { s.drop_first() } else { s };
    if d.len() > 0 && all_digits(d) && digits_value(d) <= max {
        Some(digits_value(d))
    } else {
        None
    }
}

/// Reads the digits `s[from..]` as a number, or `None` if one of them is no
/// digit, there are none, or the number exceeds `max`.
pub fn parse_digits(s: &str, from: usize, max: u64) -> (r: Option<u64>)
    requires
        from <= s@.len(),
    ensures
        r == (if s@.len() > from && all_digits(s@.subrange(from as int, s@.len() as int))
            && digits_value(s@.subrange(from as int, s@.len() as int)) <= max {
            Some(digits_value(s@.subrange(from as int, s@.len() as int)) as u64)
        } else {
            None
        }),
{
    let n = s.unicode_len();
    if n == from {
        return None;
    }
    let mut acc: u64 = 0;
    let mut over = false;
    let mut i = from;
    while i < n
        invariant
            n == s@.len(),
            from <= i <= n,
            all_digits(s@.subrange(from as int, i as int)),
            !over ==> acc as nat == digits_value(s@.subrange(from as int, i as int)) && acc <= max,
            over ==> digits_value(s@.subrange(from as int, i as int)) > max,
        decreases n - i,
    {
        let c = s.get_char(i);
        let ghost p = s@.subrange(from as int, i as int);
        let ghost q = s@.subrange(from as int, i + 1);
        assert(q.drop_last() =~= p);
        if !('0' <= c && c <= '9') {
            assert(!all_digits(s@.subrange(from as int, n as int))) by {
                assert(s@.subrange(from as int, n as int)[i - from] == c);
            }
            return None;
        }
        assert(all_digits(q)) by {
            assert forall|k: int| 0 <= k < q.len() implies is_digit(#[trigger] q[k]) by {
                if k < p.len() {
                    assert(q[k] == p[k]);
                }
            }
        }
        let d = (c as u32 - '0' as u32) as u64;
        if !over {
            if d > max || acc > (max - d) / 10 {
                over = true;
            } else {
                acc = acc * 10 + d;
            }
        }
        i = i + 1;
    }
    assert(s@.subrange(from as int, n as int) =~= s@.subrange(from as int, i as int));
    if over {
        None
    } else {
        Some(acc)
    }
}

/// Parses an unsigned decimal number, with an optional leading `+`, that
/// is at most `max`.
pub fn parse_unsigned(s: &str, max: u64) -> (r: Option<u64>)
    ensures
        r == (match unsigned_of(s@, max as nat) {
            Some(v) => Some(v as u64),
            None => None,
        }),
{
    let n = s.unicode_len();
    if n > 0 && s.get_char(0) == '+' {
        assert(s@.drop_first() =~= s@.subrange(1, n as int));
        parse_digits(s, 1, max)
    } else {
        assert(s@ =~= s@.subrange(0, n as int));
        parse_digits(s, 0, max)
    }
}

/// Whether two strings hold the same characters.
pub fn same_text(a: &str, b: &str) -> (r: bool)
    ensures
        r == (a@ == b@),
{
    owned(a) == owned(b)
}

/// The boolean that a lowercased word spells, or `default` for any other
/// word.
pub open spec fn bool_word(l: Seq<char>, default: bool) -> bool {
    if l == "true"@ || l == "1"@ || l == "yes"@ || l == "on"@ {
        true
    } else if l == "false"@ || l == "0"@ || l == "no"@ || l == "off"@ {
        false
    } else {
        default
    }
}

/// Reads an already lowercased boolean word, falling back to `default`.
pub fn bool_from_lowered(l: &str, default: bool) -> (r: bool)
    ensures
        r == bool_word(l@, default),
{
    if same_text(l, "true") || same_text(l, "1") || same_text(l, "yes") || same_text(l, "on") {
        true
    } else if same_text(l, "false") || same_text(l, "0") || same_text(l, "no") || same_text(l, "off") {
        false
    } else {
        default
    }
}

/// Reads a boolean word in any letter case, falling back to `default`.
pub fn parse_bool(s: &str, default: bool) -> (r: bool)
    ensures
        r == bool_word(lower_of(s@), default),
{
    let l = lowercase(s);
    bool_from_lowered(l.as_str(), default)
}

/// The pieces of `s` between occurrences of `c`; always at least one.
pub open spec fn split_on(s: Seq<char>, c: char) -> Seq<Seq<char>>
    decreases s.len(),
{
    if s.len() == 0 {
        seq![Seq::<char>::empty()]
    } else {
        let p = split_on(s.drop_last(), c);
        if s.last() == c {
            p.push(Seq::<char>::empty())
        } else {
            p.update(p.len() - 1, p.last().push(s.last()))
        }
    }
}

pub proof fn lemma_split_nonempty(s: Seq<char>, c: char)
    ensures
        split_on(s, c).len() >= 1,
    decreases s.len(),
{
    if s.len() > 0 {
        lemma_split_nonempty(s.drop_last(), c);
    }
}

pub open spec fn views(v: Seq<String>) -> Seq<Seq<char>> {
    v.map_values(|x: String| x@)
}

/// Splits `s` at every occurrence of `c`.
pub fn split_text(s: &str, c: char) -> (r: Vec<String>)
    ensures
        views(r@) == split_on(s@, c),
{
    let n = s.unicode_len();
    let mut parts: Vec<String> = Vec::new();
    let mut cur = String::new();
    let mut i: usize = 0;
    assert(s@.subrange(0, 0) =~= Seq::<char>::empty());
    assert(views(parts@).push(cur@) =~= split_on(s@.subrange(0, 0), c));
    while i < n
        invariant
            n == s@.len(),
            i <= n,
            views(parts@).push(cur@) == split_on(s@.subrange(0, i as int), c),
        decreases n - i,
    {
        let ch = s.get_char(i);
        let ghost old_parts = parts@;
        let ghost old_cur = cur@;
        assert(s@.subrange(0, i + 1).drop_last() =~= s@.subrange(0, i as int));
        proof {
            lemma_split_nonempty(s@.subrange(0, i as int), c);
        }
        if ch == c {
            let done = cur;
            parts.push(done);
            cur = String::new();
            assert(views(parts@).push(cur@) =~= views(old_parts).push(old_cur).push(Seq::<char>::empty()));
        } else {
            push_char(&mut cur, ch);
            let ghost p = views(old_parts).push(old_cur);
            assert(views(parts@).push(cur@) =~= p.update(p.len() - 1, p.last().push(ch)));
        }
        i = i + 1;
    }
    assert(s@.subrange(0, n as int) =~= s@);
    parts.push(cur);
    assert(views(parts@) =~= split_on(s@, c));
    parts
}

/// The pieces of a comma separated list, each trimmed.
pub open spec fn list_of(s: Seq<char>) -> Seq<Seq<char>> {
    split_on(s, ',').map_values(|p: Seq<char>| trim_of(p))
}

/// Splits a comma separated list and trims each element.
pub fn parse_list(s: &str) -> (r: Vec<String>)
    ensures
        views(r@) == list_of(s@),
{
    let parts = split_text(s, ',');
    let mut out: Vec<String> = Vec::new();
    let mut i: usize = 0;
    while i < parts.len()
        invariant
            i <= parts@.len(),
            views(parts@) == split_on(s@, ','),
            views(out@) == views(parts@).subrange(0, i as int).map_values(|p: Seq<char>| trim_of(p)),
        decreases parts@.len() - i,
    {
        let t = trim(parts[i].as_str());
        let ghost before = out@;
        out.push(t);
        assert(views(out@) =~= views(parts@).subrange(0, i + 1).map_values(|p: Seq<char>| trim_of(p))) by {
            assert(views(out@) =~= views(before).push(t@));
        }
        i = i + 1;
    }
    assert(views(parts@).subrange(0, i as int) =~= views(parts@));
    out
}

} // verus!

//! Character-level helpers: escape decoding, comma splitting and the
//! std string operations the rest of the library relies on.

use vstd::prelude::*;

verus! {

/// Replaces every non-overlapping occurrence of the two-character sequence
/// `a b`, scanning from the left, by the single character `r`.
pub open spec fn replace_pair(s: Seq<char>, a: char, b: char, r: char) -> Seq<char>
    decreases s.len(),
{
    if s.len() < 2 {
        s
    } else if s[0] == a && s[1] == b {
        seq![r] + replace_pair(s.subrange(2, s.len() as int), a, b, r)
    } else {
        seq![s[0]] + replace_pair(s.subrange(1, s.len() as int), a, b, r)
    }
}

/// The decoded form of an environment text value: `\n`, `\r`, `\t` and
/// `\\` are replaced, in that order.
pub open spec fn decode_escapes(s: Seq<char>) -> Seq<char> {
    replace_pair(
        replace_pair(replace_pair(replace_pair(s, '\\', 'n', '\n'), '\\', 'r', '\r'), '\\', 't', '\t'),
        '\\',
        '\\',
        '\\',
    )
}

/// Relies on `String::push`: appends one character.
#[verifier::external_body]
pub(crate) fn push_char(s: &mut String, c: char)
    ensures
        final(s)@ == old(s)@.push(c),
{
    s.push(c)
}

pub uninterp spec fn lower_of(s: Seq<char>) -> Seq<char>;

/// Relies on `str::to_lowercase`: the result depends on the characters alone.
#[verifier::external_body]
pub(crate) fn lowercase(s: &str) -> (r: String)
    ensures
        r@ == lower_of(s@),
{
    s.to_lowercase()
}

pub uninterp spec fn trim_of(s: Seq<char>) -> Seq<char>;

/// Relies on `str::trim`: the result depends on the characters alone.
#[verifier::external_body]
pub(crate) fn trim(s: &str) -> (r: String)
    ensures
        r@ == trim_of(s@),
{
    s.trim().to_string()
}

/// Copies a string slice into an owned string.
pub(crate) fn owned(s: &str) -> (r: String)
    ensures
        r@ == s@,
{
    String::from_str(s)
}

/// Replaces each `a b` pair of `s` by `r`, as `replace_pair` states.
fn replace_pair_exec(s: &str, a: char, b: char, r: char) -> (out: String)
    ensures
        out@ == replace_pair(s@, a, b, r),
{
    let n = s.unicode_len();
    let mut out = String::new();
    let mut i: usize = 0;
    assert(s@.subrange(0, n as int) =~= s@);
    assert(out@ + replace_pair(s@, a, b, r) =~= replace_pair(s@, a, b, r));
    while i < n
        invariant
            n == s@.len(),
            i <= n,
            out@ + replace_pair(s@.subrange(i as int, n as int), a, b, r) == replace_pair(s@, a, b, r),
        decreases n - i,
    {
        let ghost rest = s@.subrange(i as int, n as int);
        let c = s.get_char(i);
        if i + 1 < n && c == a && s.get_char(i + 1) == b {
            assert(rest.subrange(2, rest.len() as int) =~= s@.subrange(i + 2, n as int));
            push_char(&mut out, r);
            i = i + 2;
        } else {
            assert(rest.len() >= 2 ==> rest.subrange(1, rest.len() as int) =~= s@.subrange(i + 1, n as int));
            if i + 1 == n {
                assert(rest =~= seq![c]);
                assert(s@.subrange(i + 1, n as int) =~= Seq::<char>::empty());
            }
            push_char(&mut out, c);
            i = i + 1;
        }
        assert(out@ + replace_pair(s@.subrange(i as int, n as int), a, b, r) == replace_pair(s@, a, b, r)) by {
            assert(forall|x: Seq<char>, y: Seq<char>, z: Seq<char>| (x + y) + z =~= x + (y + z));
        }
    }
    assert(s@.subrange(n as int, n as int) =~= Seq::<char>::empty());
    assert(out@ + Seq::<char>::empty() =~= out@);
    out
}

/// Decodes the escape sequences `\n`, `\r`, `\t` and `\\` of an
/// environment text value, backslashes last.
pub fn process_escape_sequences(input: &str) -> (r: String)
    ensures
        r@ == decode_escapes(input@),
{
    let a = replace_pair_exec(input, '\\', 'n', '\n');
    let b = replace_pair_exec(a.as_str(), '\\', 'r', '\r');
    let c = replace_pair_exec(b.as_str(), '\\', 't', '\t');
    replace_pair_exec(c.as_str(), '\\', '\\', '\\')
}

} // verus!

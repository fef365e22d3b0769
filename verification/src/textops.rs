//! Trimming, splitting and case-insensitive comparison of texts.

use crate::text::{copy_range, find_char, first_index, lemma_first_index};
use vstd::prelude::*;

verus! {

/// Whether a character is white space, as Unicode defines it.
pub uninterp spec fn is_whitespace(c: char) -> bool;

/// `char::is_whitespace` of the standard library: whether the character has
/// the property `White_Space` of Unicode.
#[verifier::external_body]
pub(crate) fn char_is_whitespace(c: char) -> (r: bool)
    ensures
        r == is_whitespace(c),
{
    c.is_whitespace()
}

/// The number of white-space characters at the start of `s`.
pub open spec fn leading_space(s: Seq<char>) -> int
    decreases s.len(),
{
    if s.len() > 0 && is_whitespace(s[0]) {
        1 + leading_space(s.drop_first())
    } else {
        0
    }
}

/// The number of white-space characters at the end of `s`.
pub open spec fn trailing_space(s: Seq<char>) -> int
    decreases s.len(),
{
    if s.len() > 0 && is_whitespace(s.last()) {
        1 + trailing_space(s.drop_last())
    } else {
        0
    }
}

/// `s` without the white space at its start and at its end.
pub open spec fn trim(s: Seq<char>) -> Seq<char> {
    let start = leading_space(s);
    let rest = s.skip(start);
    rest.take(rest.len() - trailing_space(rest))
}

/// The leading white space is a run of white-space characters that ends at
/// the end of the text or before a character that is none.
pub proof fn lemma_leading_space(s: Seq<char>)
    ensures
        0 <= leading_space(s) <= s.len(),
        forall|j: int| 0 <= j < leading_space(s) ==> is_whitespace(#[trigger] s[j]),
        leading_space(s) < s.len() ==> !is_whitespace(s[leading_space(s)]),
    decreases s.len(),
{
    if s.len() > 0 && is_whitespace(s[0]) {
        let t = s.drop_first();
        lemma_leading_space(t);
        assert forall|j: int| 0 <= j < leading_space(s) implies is_whitespace(#[trigger] s[j]) by {
            if j > 0 {
                assert(s[j] == t[j - 1]);
            }
        }
    }
}

/// Any index with the properties of `lemma_leading_space` is the number of
/// leading white-space characters.
pub proof fn lemma_leading_space_unique(s: Seq<char>, i: int)
    requires
        0 <= i <= s.len(),
        forall|j: int| 0 <= j < i ==> is_whitespace(#[trigger] s[j]),
        i < s.len() ==> !is_whitespace(s[i]),
    ensures
        i == leading_space(s),
{
    lemma_leading_space(s);
    let f = leading_space(s);
    if f < i {
        assert(is_whitespace(s[f]));
    }
    if i < f {
        assert(is_whitespace(s[i]));
    }
}

/// The trailing white space is a run of white-space characters that begins
/// at the start of the text or after a character that is none.
pub proof fn lemma_trailing_space(s: Seq<char>)
    ensures
        0 <= trailing_space(s) <= s.len(),
        forall|j: int| s.len() - trailing_space(s) <= j < s.len() ==> is_whitespace(#[trigger] s[j]),
        trailing_space(s) < s.len() ==> !is_whitespace(s[s.len() - trailing_space(s) - 1]),
    decreases s.len(),
{
    if s.len() > 0 && is_whitespace(s.last()) {
        let t = s.drop_last();
        lemma_trailing_space(t);
        assert forall|j: int| s.len() - trailing_space(s) <= j < s.len() implies is_whitespace(
            #[trigger] s[j],
        ) by {
            if j < s.len() - 1 {
                assert(s[j] == t[j]);
            }
        }
    }
}

/// Any count with the properties of `lemma_trailing_space` is the number of
/// trailing white-space characters.
pub proof fn lemma_trailing_space_unique(s: Seq<char>, n: int)
    requires
        0 <= n <= s.len(),
        forall|j: int| s.len() - n <= j < s.len() ==> is_whitespace(#[trigger] s[j]),
        n < s.len() ==> !is_whitespace(s[s.len() - n - 1]),
    ensures
        n == trailing_space(s),
{
    lemma_trailing_space(s);
    let f = trailing_space(s);
    if f < n {
        assert(is_whitespace(s[s.len() - f - 1]));
    }
    if n < f {
        assert(is_whitespace(s[s.len() - n - 1]));
    }
}

/// `s` without the white space at its start and at its end.
pub fn trim_chars(s: &[char]) -> (out: Vec<char>)
    ensures
        out@ == trim(s@),
{
    let mut start: usize = 0;
    while start < s.len() && char_is_whitespace(s[start])
        invariant
            start <= s.len(),
            forall|j: int| 0 <= j < start ==> is_whitespace(#[trigger] s@[j]),
        decreases s.len() - start,
    {
        start += 1;
    }
    proof {
        lemma_leading_space_unique(s@, start as int);
    }
    let ghost rest = s@.skip(start as int);
    let mut end: usize = s.len();
    while end > start && char_is_whitespace(s[end - 1])
        invariant
            start <= end <= s.len(),
            rest == s@.skip(start as int),
            forall|j: int| end - start <= j < rest.len() ==> is_whitespace(#[trigger] rest[j]),
        decreases end,
    {
        end -= 1;
        assert(rest[end - start] == s@[end as int]);
    }
    proof {
        if end > start {
            assert(rest[end - start - 1] == s@[end - 1]);
        }
        lemma_trailing_space_unique(rest, s.len() - end);
    }
    let out = copy_range(s, start, end);
    assert(out@ =~= trim(s@));
    out
}

/// The parts of `s` between the occurrences of `sep`: one more than there
/// are occurrences, some of them empty where separators meet.
pub open spec fn split(s: Seq<char>, sep: char) -> Seq<Seq<char>>
    decreases s.len(),
{
    let i = first_index(s, sep);
    if 0 <= i < s.len() {
        seq![s.take(i)] + split(s.skip(i + 1), sep)
    } else {
        seq![s]
    }
}

/// The position of the first `sep` at or after `start`, or the length of
/// `s`.
fn find_char_from(s: &[char], start: usize, sep: char) -> (i: usize)
    requires
        start <= s.len(),
    ensures
        start <= i <= s.len(),
        i - start == first_index(s@.skip(start as int), sep),
{
    let ghost rest = s@.skip(start as int);
    let mut i: usize = start;
    while i < s.len() && s[i] != sep
        invariant
            start <= i <= s.len(),
            rest == s@.skip(start as int),
            forall|j: int| 0 <= j < i - start ==> rest[j] != sep,
        decreases s.len() - i,
    {
        i += 1;
    }
    proof {
        if i < s.len() {
            assert(rest[i - start] == s@[i as int]);
        }
        crate::text::lemma_first_index_unique(rest, sep, i - start);
    }
    i
}

/// The parts of `s` between the occurrences of `sep`.
pub fn split_chars(s: &[char], sep: char) -> (parts: Vec<Vec<char>>)
    ensures
        parts@.map_values(|p: Vec<char>| p@) == split(s@, sep),
{
    let mut parts: Vec<Vec<char>> = Vec::new();
    let mut start: usize = 0;
    let ghost views = |p: Vec<char>| p@;
    assert(s@.skip(0) == s@);
    assert(parts@.map_values(views) =~= Seq::<Seq<char>>::empty());
    loop
        invariant
            start <= s.len(),
            views == |p: Vec<char>| p@,
            split(s@, sep) == parts@.map_values(views) + split(s@.skip(start as int), sep),
        decreases s.len() - start,
    {
        let ghost rest = s@.skip(start as int);
        let ghost done = parts@.map_values(views);
        let end: usize = find_char_from(s, start, sep);
        let part = copy_range(s, start, end);
        proof {
            lemma_first_index(rest, sep);
            assert(part@ == rest.take(end - start));
        }
        parts.push(part);
        if end < s.len() {
            proof {
                assert(rest.skip(end - start + 1) == s@.skip(end + 1));
                assert(parts@.map_values(views) =~= done.push(part@));
                assert(done.push(part@) + split(rest.skip(end - start + 1), sep) =~= done + (
                seq![part@] + split(rest.skip(end - start + 1), sep)));
            }
            start = end + 1;
        } else {
            proof {
                assert(part@ == rest);
                assert(parts@.map_values(views) =~= done.push(rest));
                assert(done.push(rest) =~= done + seq![rest]);
            }
            return parts;
        }
    }
}

/// The text before the first `sep` and the text after it, where `sep`
/// occurs.
pub open spec fn split_once(s: Seq<char>, sep: char) -> Option<(Seq<char>, Seq<char>)> {
    let i = first_index(s, sep);
    if 0 <= i < s.len() {
        Some((s.take(i), s.skip(i + 1)))
    } else {
        None
    }
}

/// Splits `s` at the first `sep`.
pub fn split_once_chars(s: &[char], sep: char) -> (halves: Option<(Vec<char>, Vec<char>)>)
    ensures
        match halves {
            Some((before, after)) => split_once(s@, sep) == Some((before@, after@)),
            None => split_once(s@, sep) is None,
        },
{
    let i: usize = find_char(s, sep);
    if i < s.len() {
        let before = copy_range(s, 0, i);
        let after = copy_range(s, i + 1, s.len());
        assert(before@ == s@.take(i as int));
        assert(after@ == s@.skip(i + 1));
        Some((before, after))
    } else {
        None
    }
}

/// The lower-case form of an ASCII capital letter; any other character as
/// it is.
pub open spec fn ascii_lower(c: char) -> char {
    if 'A' <= c && c <= 'Z' {
        ((c as u8) + 32) as char
    } else {
        c
    }
}

/// Whether two texts are the same but for the case of their ASCII letters.
pub open spec fn eq_ignore_ascii_case(a: Seq<char>, b: Seq<char>) -> bool {
    a.len() == b.len() && forall|i: int|
        0 <= i < a.len() ==> ascii_lower(#[trigger] a[i]) == ascii_lower(b[i])
}

/// The lower-case form of an ASCII capital letter.
fn to_ascii_lower(c: char) -> (lower: char)
    ensures
        lower == ascii_lower(c),
{
    if 'A' <= c && c <= 'Z' {
        ((c as u8) + 32) as char
    } else {
        c
    }
}

/// Whether two texts are the same but for the case of their ASCII letters.
pub fn chars_eq_ignore_ascii_case(a: &[char], b: &[char]) -> (r: bool)
    ensures
        r == eq_ignore_ascii_case(a@, b@),
{
    if a.len() != b.len() {
        return false;
    }
    let mut i: usize = 0;
    while i < a.len()
        invariant
            i <= a.len(),
            a.len() == b.len(),
            forall|j: int| 0 <= j < i ==> ascii_lower(#[trigger] a@[j]) == ascii_lower(b@[j]),
        decreases a.len() - i,
    {
        if to_ascii_lower(a[i]) != to_ascii_lower(b[i]) {
            return false;
        }
        i += 1;
    }
    true
}

/// `s` with every `from` replaced by `to`.
pub open spec fn replace_char(s: Seq<char>, from: char, to: char) -> Seq<char> {
    s.map_values(
        |c: char|
            if c == from {
                to
            } else {
                c
            },
    )
}

/// `s` with every `from` replaced by `to`.
pub fn replace_chars(s: &[char], from: char, to: char) -> (out: Vec<char>)
    ensures
        out@ == replace_char(s@, from, to),
{
    let mut out: Vec<char> = Vec::new();
    let mut i: usize = 0;
    while i < s.len()
        invariant
            i <= s.len(),
            out.len() == i,
            forall|j: int|
                0 <= j < i ==> out@[j] == if s@[j] == from {
                    to
                } else {
                    s@[j]
                },
        decreases s.len() - i,
    {
        out.push(
            if s[i] == from {
                to
            } else {
                s[i]
            },
        );
        i += 1;
    }
    assert(out@ =~= replace_char(s@, from, to));
    out
}

} // verus!

//! Text as a sequence of characters: conversion, trimming, prefixes,
//! suffixes, splitting and searching.

use vstd::prelude::*;
use crate::sequences::{first_where, lemma_first_where_is, lemma_first_where_none};

verus! {

/// Whether a character is white space: whether it is one of the code
/// points that have the property `White_Space` in the Unicode character
/// database. These are the tab, the line feed, the vertical tab, the form
/// feed, the carriage return, the space, the next-line control, the
/// no-break space, the ogham space mark, the spaces from the en quad to the
/// hair space, the line and the paragraph separator, the narrow no-break
/// space, the medium mathematical space and the ideographic space.
pub open spec fn white_space(c: char) -> bool {
    ||| ('\u{9}' <= c && c <= '\u{d}')
    ||| c == ' '
    ||| c == '\u{85}'
    ||| c == '\u{a0}'
    ||| c == '\u{1680}'
    ||| ('\u{2000}' <= c && c <= '\u{200a}')
    ||| c == '\u{2028}'
    ||| c == '\u{2029}'
    ||| c == '\u{202f}'
    ||| c == '\u{205f}'
    ||| c == '\u{3000}'
}

/// Whether a character is white space, by `char::is_whitespace`.
///
/// Trusted: the contract claims that the standard library counts as white
/// space exactly the code points with the Unicode property `White_Space`,
/// which [`white_space`] lists.
#[verifier::external_body]
pub(crate) fn is_white_space(c: char) -> (r: bool)
    ensures
        r == white_space(c),
{
    c.is_whitespace()
}

/// Appends a character to a text, by `String::push`.
///
/// Trusted: the contract claims that the text afterwards is the text before
/// followed by the character.
#[verifier::external_body]
pub(crate) fn push_char(s: &mut String, c: char)
    ensures
        final(s)@ == old(s)@.push(c),
{
    s.push(c)
}

/// The characters of a text.
pub fn to_chars(s: &str) -> (r: Vec<char>)
    ensures
        r@ == s@,
{
    let mut out: Vec<char> = Vec::new();
    for c in it: s.chars()
        invariant
            it.seq() == s@,
            out@ == s@.take(it.index()),
    {
        out.push(c);
    }
    out
}

/// The text made of the characters of `chars` from index `from` up to, not
/// including, index `to`.
pub fn to_text(chars: &Vec<char>, from: usize, to: usize) -> (r: String)
    requires
        from <= to <= chars.len(),
    ensures
        r@ == chars@.subrange(from as int, to as int),
{
    let mut out = String::new();
    let mut i: usize = from;
    while i < to
        invariant
            from <= i <= to,
            to <= chars.len(),
            out@ == chars@.subrange(from as int, i as int),
        decreases to - i,
    {
        push_char(&mut out, chars[i]);
        i += 1;
    }
    out
}

/// A copy of the characters of `chars` from index `from` up to, not
/// including, index `to`.
pub fn slice(chars: &Vec<char>, from: usize, to: usize) -> (r: Vec<char>)
    requires
        from <= to <= chars.len(),
    ensures
        r@ == chars@.subrange(from as int, to as int),
{
    let mut out: Vec<char> = Vec::new();
    let mut i: usize = from;
    while i < to
        invariant
            from <= i <= to,
            to <= chars.len(),
            out@ == chars@.subrange(from as int, i as int),
        decreases to - i,
    {
        out.push(chars[i]);
        i += 1;
    }
    out
}

/// A text without the white space at its start.
pub open spec fn trimmed_start(s: Seq<char>) -> Seq<char>
    decreases s.len(),
{
    if s.len() > 0 && white_space(s.first()) {
        trimmed_start(s.drop_first())
    } else {
        s
    }
}

/// A text without the white space at its end.
pub open spec fn trimmed_end(s: Seq<char>) -> Seq<char>
    decreases s.len(),
{
    if s.len() > 0 && white_space(s.last()) {
        trimmed_end(s.drop_last())
    } else {
        s
    }
}

/// A text without the white space at its start and at its end.
pub open spec fn trimmed(s: Seq<char>) -> Seq<char> {
    trimmed_end(trimmed_start(s))
}

/// A text that neither starts nor ends with white space stays as it is
/// when it is trimmed.
pub proof fn lemma_trimmed_keeps_a_tight_text(s: Seq<char>)
    requires
        s.len() > 0 ==> !white_space(s.first()) && !white_space(s.last()),
    ensures
        trimmed(s) == s,
{
}

/// Removes the white space at the start and at the end of a text.
pub fn trim(chars: &Vec<char>) -> (r: Vec<char>)
    ensures
        r@ == trimmed(chars@),
{
    let n = chars.len();
    let mut a: usize = 0;
    proof {
        assert(chars@.skip(0) =~= chars@);
    }
    while a < n && is_white_space(chars[a])
        invariant
            a <= n,
            n == chars.len(),
            trimmed_start(chars@) == trimmed_start(chars@.skip(a as int)),
        decreases n - a,
    {
        proof {
            assert(chars@.skip(a as int).drop_first() =~= chars@.skip(a + 1));
        }
        a += 1;
    }
    let mut b: usize = n;
    while b > a && is_white_space(chars[b - 1])
        invariant
            a <= b <= n,
            n == chars.len(),
            trimmed_end(chars@.subrange(a as int, n as int)) == trimmed_end(
                chars@.subrange(a as int, b as int),
            ),
        decreases b,
    {
        proof {
            assert(chars@.subrange(a as int, b as int).drop_last() =~= chars@.subrange(
                a as int,
                b - 1,
            ));
        }
        b -= 1;
    }
    slice(chars, a, b)
}

/// Whether the characters of `chars` from index `at` on start with `part`.
pub fn starts_with_at(chars: &Vec<char>, at: usize, part: &Vec<char>) -> (r: bool)
    requires
        at <= chars.len(),
    ensures
        r == part@.is_prefix_of(chars@.skip(at as int)),
{
    if part.len() > chars.len() - at {
        return false;
    }
    let mut i: usize = 0;
    while i < part.len()
        invariant
            i <= part.len(),
            at + part.len() <= chars.len(),
            forall|j: int| 0 <= j < i ==> part@[j] == chars@[at + j],
        decreases part.len() - i,
    {
        if part[i] != chars[at + i] {
            return false;
        }
        i += 1;
    }
    true
}

/// Whether a text starts with `part`.
pub fn starts_with(chars: &Vec<char>, part: &str) -> (r: bool)
    ensures
        r == part@.is_prefix_of(chars@),
{
    let p = to_chars(part);
    starts_with_at(chars, 0, &p)
}

/// Whether the characters of `chars` before index `to` end with `part`.
pub fn ends_with_at(chars: &Vec<char>, to: usize, part: &Vec<char>) -> (r: bool)
    requires
        to <= chars.len(),
    ensures
        r == part@.is_suffix_of(chars@.take(to as int)),
{
    if part.len() > to {
        return false;
    }
    let r = starts_with_at(chars, to - part.len(), part);
    r
}

/// A text without the copies of `part` that follow one another at its
/// start. An empty `part` removes nothing.
pub open spec fn without_prefixes(s: Seq<char>, part: Seq<char>) -> Seq<char>
    decreases s.len(),
{
    if part.len() > 0 && part.is_prefix_of(s) {
        without_prefixes(s.skip(part.len() as int), part)
    } else {
        s
    }
}

/// A text without the copies of `part` that follow one another at its end.
/// An empty `part` removes nothing.
pub open spec fn without_suffixes(s: Seq<char>, part: Seq<char>) -> Seq<char>
    decreases s.len(),
{
    if part.len() > 0 && part.is_suffix_of(s) {
        without_suffixes(s.take(s.len() - part.len()), part)
    } else {
        s
    }
}

/// Removes every copy of `part` at the start of a text.
pub fn strip_prefixes(chars: &Vec<char>, part: &str) -> (r: Vec<char>)
    ensures
        r@ == without_prefixes(chars@, part@),
{
    let p = to_chars(part);
    let n = chars.len();
    let mut a: usize = 0;
    proof {
        assert(chars@.skip(0) =~= chars@);
    }
    if p.len() > 0 {
        while starts_with_at(chars, a, &p)
            invariant
                a <= n,
                n == chars.len(),
                p@ == part@,
                p.len() > 0,
                without_prefixes(chars@, part@) == without_prefixes(chars@.skip(a as int), part@),
            decreases n - a,
        {
            proof {
                assert(chars@.skip(a as int).skip(p@.len() as int) =~= chars@.skip(a + p@.len()));
            }
            a += p.len();
        }
    }
    slice(chars, a, n)
}

/// Removes every copy of `part` at the end of a text.
pub fn strip_suffixes(chars: &Vec<char>, part: &str) -> (r: Vec<char>)
    ensures
        r@ == without_suffixes(chars@, part@),
{
    let p = to_chars(part);
    let mut b: usize = chars.len();
    proof {
        assert(chars@.take(b as int) =~= chars@);
    }
    if p.len() > 0 {
        while ends_with_at(chars, b, &p)
            invariant
                b <= chars.len(),
                p@ == part@,
                p.len() > 0,
                without_suffixes(chars@, part@) == without_suffixes(chars@.take(b as int), part@),
            decreases b,
        {
            proof {
                assert(chars@.take(b as int).take(b - p@.len()) =~= chars@.take(b - p@.len()));
            }
            b -= p.len();
        }
    }
    slice(chars, 0, b)
}

/// The characters equal to `c`.
pub open spec fn is_char(c: char) -> spec_fn(char) -> bool {
    |x: char| x == c
}

/// The parts of a text between the occurrences of a separator, in order.
/// A text without the separator is its own single part; a text with `n`
/// separators has `n + 1` parts, some of which may be empty.
pub open spec fn split_by(s: Seq<char>, sep: char) -> Seq<Seq<char>>
    decreases s.len(),
{
    match first_where(s, is_char(sep)) {
        Some(i) => if 0 <= i < s.len() {
            seq![s.take(i)] + split_by(s.skip(i + 1), sep)
        } else {
            seq![s]
        },
        None => seq![s],
    }
}

/// The views of a sequence of character vectors, element by element.
pub open spec fn char_views(parts: Seq<Vec<char>>) -> Seq<Seq<char>> {
    parts.map_values(|p: Vec<char>| p@)
}

/// Splits a text at every occurrence of a separator.
pub fn split(chars: &Vec<char>, sep: char) -> (r: Vec<Vec<char>>)
    ensures
        char_views(r@) == split_by(chars@, sep),
        r.len() >= 1,
{
    let n = chars.len();
    let mut parts: Vec<Vec<char>> = Vec::new();
    let mut start: usize = 0;
    let mut i: usize = 0;
    proof {
        assert(chars@.skip(0) =~= chars@);
    }
    while i < n
        invariant
            start <= i <= n,
            n == chars.len(),
            split_by(chars@, sep) == char_views(parts@) + split_by(chars@.skip(start as int), sep),
            forall|j: int| start <= j < i ==> chars@[j] != sep,
        decreases n - i,
    {
        if chars[i] == sep {
            let part = slice(chars, start, i);
            proof {
                let rest = chars@.skip(start as int);
                lemma_first_where_is(rest, is_char(sep), i - start);
                assert(rest.take(i - start) =~= part@);
                assert(rest.skip(i - start + 1) =~= chars@.skip(i + 1));
            }
            parts.push(part);
            start = i + 1;
        }
        i += 1;
    }
    let part = slice(chars, start, n);
    proof {
        let rest = chars@.skip(start as int);
        lemma_first_where_none(rest, is_char(sep));
    }
    parts.push(part);
    parts
}

/// Whether `part` stands somewhere in `whole`, character after character.
/// The empty text stands in every text.
pub open spec fn occurs_in(part: Seq<char>, whole: Seq<char>) -> bool {
    exists|i: int|
        0 <= i && i + part.len() <= whole.len() && part == #[trigger] whole.subrange(
            i,
            i + part.len(),
        )
}

/// Whether `part` stands somewhere in a text.
pub fn contains(chars: &Vec<char>, part: &str) -> (r: bool)
    ensures
        r == occurs_in(part@, chars@),
{
    let p = to_chars(part);
    if p.len() > chars.len() {
        return false;
    }
    let last = chars.len() - p.len();
    let mut i: usize = 0;
    while i <= last
        invariant
            i <= last + 1,
            last + p.len() == chars.len(),
            p@ == part@,
            forall|j: int| 0 <= j < i ==> part@ != #[trigger] chars@.subrange(j, j + part@.len()),
        decreases last + 1 - i,
    {
        if starts_with_at(chars, i, &p) {
            proof {
                assert(chars@.skip(i as int).subrange(0, p@.len() as int) =~= chars@.subrange(
                    i as int,
                    i + p@.len(),
                ));
            }
            return true;
        }
        i += 1;
    }
    false
}

/// A text in which every occurrence of `from` is replaced by `to`,
/// reading from the start and going on behind each occurrence that was
/// replaced. An empty `from` replaces nothing.
pub open spec fn replaced_all(s: Seq<char>, from: Seq<char>, to: Seq<char>) -> Seq<char>
    decreases s.len(),
{
    if from.len() == 0 || s.len() == 0 {
        s
    } else if from.is_prefix_of(s) {
        to + replaced_all(s.skip(from.len() as int), from, to)
    } else {
        seq![s.first()] + replaced_all(s.drop_first(), from, to)
    }
}

/// Appends the characters of `more` to `out`.
pub fn append_chars(out: &mut Vec<char>, more: &Vec<char>)
    ensures
        final(out)@ == old(out)@ + more@,
{
    let mut i: usize = 0;
    while i < more.len()
        invariant
            i <= more.len(),
            out@ == old(out)@ + more@.take(i as int),
        decreases more.len() - i,
    {
        out.push(more[i]);
        i += 1;
    }
}

/// Replaces every occurrence of `from` in a text by `to`.
pub fn replace_all(chars: &Vec<char>, from: &Vec<char>, to: &Vec<char>) -> (r: Vec<char>)
    ensures
        r@ == replaced_all(chars@, from@, to@),
{
    if from.len() == 0 {
        return slice_all(chars);
    }
    let n = chars.len();
    let mut out: Vec<char> = Vec::new();
    let mut i: usize = 0;
    proof {
        assert(chars@.skip(0) =~= chars@);
    }
    while i < n
        invariant
            i <= n,
            n == chars.len(),
            from.len() > 0,
            replaced_all(chars@, from@, to@) == out@ + replaced_all(
                chars@.skip(i as int),
                from@,
                to@,
            ),
        decreases n - i,
    {
        let ghost rest = chars@.skip(i as int);
        if starts_with_at(chars, i, from) {
            append_chars(&mut out, to);
            proof {
                assert(rest.skip(from@.len() as int) =~= chars@.skip(i + from@.len()));
            }
            i += from.len();
        } else {
            proof {
                assert(rest.drop_first() =~= chars@.skip(i + 1));
            }
            out.push(chars[i]);
            i += 1;
        }
    }
    out
}

/// A copy of a text.
pub fn slice_all(chars: &Vec<char>) -> (r: Vec<char>)
    ensures
        r@ == chars@,
{
    let r = slice(chars, 0, chars.len());
    r
}

/// The text of all the characters of `chars`.
pub fn text_of(chars: &Vec<char>) -> (r: String)
    ensures
        r@ == chars@,
{
    let r = to_text(chars, 0, chars.len());
    r
}

/// A line without the carriage return at its end, if it has one there.
pub open spec fn without_carriage_return(line: Seq<char>) -> Seq<char> {
    if line.len() > 0 && line.last() == '\r' {
        line.drop_last()
    } else {
        line
    }
}

/// The given lines, each without the carriage return at its end.
pub open spec fn without_carriage_returns(lines: Seq<Seq<char>>) -> Seq<Seq<char>> {
    Seq::new(lines.len(), |i: int| without_carriage_return(lines[i]))
}

/// The lines of a text. A line ends with a line feed, or with a carriage
/// return and a line feed, neither of which belongs to it. What follows the
/// last line feed is a line too, unless it is empty.
pub open spec fn lines_of(s: Seq<char>) -> Seq<Seq<char>> {
    let parts = split_by(s, '\n');
    let ended = without_carriage_returns(parts.drop_last());
    if parts.last().len() == 0 {
        ended
    } else {
        ended.push(parts.last())
    }
}

/// Splits a text into its lines.
pub fn lines(chars: &Vec<char>) -> (r: Vec<Vec<char>>)
    ensures
        char_views(r@) == lines_of(chars@),
{
    let mut parts = split(chars, '\n');
    let ghost all = char_views(parts@);
    let last = parts.pop().unwrap();
    let mut out: Vec<Vec<char>> = Vec::new();
    let ghost ended = without_carriage_returns(all.drop_last());
    let mut i: usize = 0;
    while i < parts.len()
        invariant
            i <= parts.len(),
            all.len() >= 1,
            char_views(parts@) == all.drop_last(),
            ended == without_carriage_returns(all.drop_last()),
            char_views(out@) == ended.take(i as int),
        decreases parts.len() - i,
    {
        let line = &parts[i];
        let m = line.len();
        let kept = if m > 0 && line[m - 1] == '\r' {
            slice(line, 0, m - 1)
        } else {
            slice_all(line)
        };
        proof {
            assert(char_views(out@.push(kept)) =~= char_views(out@).push(kept@));
        }
        out.push(kept);
        i += 1;
    }
    proof {
        assert(ended.take(parts@.len() as int) =~= ended);
    }
    if last.len() > 0 {
        out.push(last);
    }
    out
}

/// The lower-case form of a text, as `str::to_lowercase` gives it.
pub uninterp spec fn lowercased(s: Seq<char>) -> Seq<char>;

/// The lower-case form of a text, by `str::to_lowercase`.
///
/// Trusted: the contract gives the result its name, [`lowercased`]. The
/// result depends on the text alone.
#[verifier::external_body]
pub(crate) fn lowercase(s: &str) -> (r: String)
    ensures
        r@ == lowercased(s@),
{
    s.to_lowercase()
}

} // verus!

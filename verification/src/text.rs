//! Character-level text utilities: whitespace, trimming, and conversions
//! between strings and indexable character buffers.
//!
//! Every piece of text in this crate is modelled as a `Seq<char>`, the view of
//! `str` and `String`. Positions are character positions, never byte offsets.

use vstd::prelude::*;

verus! {

/// `String::push` of the standard library.
///
/// Assumed: it appends the character `ch` to the end of the string and
/// changes nothing else of it.
pub assume_specification[ String::push ](s: &mut String, ch: char)
    ensures
        final(s)@ == old(s)@.push(ch),
;

/// Whether `c` carries the Unicode `White_Space` property.
pub open spec fn is_space(c: char) -> bool {
    ||| ('\u{9}' <= c && c <= '\u{d}')
    ||| c == ' '
    ||| c == '\u{85}'
    ||| c == '\u{a0}'
    ||| c == '\u{1680}'
    ||| ('\u{2000}' <= c && c <= '\u{200a}')
    ||| c == '\u{2028}'
    ||| c == '\u{2029}'
    ||| c == '\u{202f}'
    ||| c == '\u{205f}'
    ||| c == '\u{3000}'
}

/// `s` without its leading whitespace.
pub open spec fn trim_start(s: Seq<char>) -> Seq<char>
    decreases s.len(),
{
    if s.len() > 0 && is_space(s[0]) {
        trim_start(s.drop_first())
    } else {
        s
    }
}

/// `s` without its trailing whitespace.
pub open spec fn trim_end(s: Seq<char>) -> Seq<char>
    decreases s.len(),
{
    if s.len() > 0 && is_space(s.last()) {
        trim_end(s.drop_last())
    } else {
        s
    }
}

/// `s` without its leading and trailing whitespace.
pub open spec fn trim(s: Seq<char>) -> Seq<char> {
    trim_end(trim_start(s))
}

/// Whether `s` starts with the character `c`.
pub open spec fn starts_with(s: Seq<char>, c: char) -> bool {
    s.len() > 0 && s[0] == c
}

/// Whether `c` is whitespace.
pub fn is_whitespace(c: char) -> (b: bool)
    ensures
        b == is_space(c),
{
    ('\u{9}' <= c && c <= '\u{d}')
        || c == ' '
        || c == '\u{85}'
        || c == '\u{a0}'
        || c == '\u{1680}'
        || ('\u{2000}' <= c && c <= '\u{200a}')
        || c == '\u{2028}'
        || c == '\u{2029}'
        || c == '\u{202f}'
        || c == '\u{205f}'
        || c == '\u{3000}'
}

/// The characters of `s`, in order, as an indexable buffer.
pub fn to_chars(s: &str) -> (text: Vec<char>)
    ensures
        text@ == s@,
{
    let mut text: Vec<char> = Vec::new();
    for c in it: s.chars()
        invariant
            it.seq() == s@,
            text@ == it.seq().take(it.index() as int),
    {
        text.push(c);
    }
    text
}

/// A copy of `text`, if there is one.
pub fn copy_text(text: &Option<String>) -> (copy: Option<String>)
    ensures
        copy.deep_view() == text.deep_view(),
{
    match text {
        Some(s) => Some(s.clone()),
        None => None,
    }
}

/// The characters `text[from..to]` as a string.
pub fn substring(text: &Vec<char>, from: usize, to: usize) -> (s: String)
    requires
        from <= to <= text.len(),
    ensures
        s@ == text@.subrange(from as int, to as int),
{
    let mut s = String::new();
    let mut i: usize = from;
    while i < to
        invariant
            from <= i <= to <= text.len(),
            s@ == text@.subrange(from as int, i as int),
        decreases to - i,
    {
        s.push(text[i]);
        i = i + 1;
    }
    s
}

/// The first position in `from..to` that holds no whitespace, or `to`.
pub fn skip_leading_space(text: &Vec<char>, from: usize, to: usize) -> (start: usize)
    requires
        from <= to <= text.len(),
    ensures
        from <= start <= to,
        text@.subrange(start as int, to as int) == trim_start(
            text@.subrange(from as int, to as int),
        ),
{
    let mut i: usize = from;
    while i < to && is_whitespace(text[i])
        invariant
            from <= i <= to <= text.len(),
            trim_start(text@.subrange(i as int, to as int)) == trim_start(
                text@.subrange(from as int, to as int),
            ),
        decreases to - i,
    {
        assert(text@.subrange(i as int, to as int).drop_first() =~= text@.subrange(
            i + 1,
            to as int,
        ));
        i = i + 1;
    }
    i
}

/// The end of the span `from..to` once its trailing whitespace is dropped.
pub fn skip_trailing_space(text: &Vec<char>, from: usize, to: usize) -> (end: usize)
    requires
        from <= to <= text.len(),
    ensures
        from <= end <= to,
        text@.subrange(from as int, end as int) == trim_end(text@.subrange(from as int, to as int)),
{
    let mut i: usize = to;
    while from < i && is_whitespace(text[i - 1])
        invariant
            from <= i <= to <= text.len(),
            trim_end(text@.subrange(from as int, i as int)) == trim_end(
                text@.subrange(from as int, to as int),
            ),
        decreases i - from,
    {
        assert(text@.subrange(from as int, i as int).drop_last() =~= text@.subrange(
            from as int,
            i - 1,
        ));
        i = i - 1;
    }
    i
}

/// The bounds of the span `from..to` once trimmed on both sides.
pub fn trimmed_span(text: &Vec<char>, from: usize, to: usize) -> (span: (usize, usize))
    requires
        from <= to <= text.len(),
    ensures
        from <= span.0 <= span.1 <= to,
        text@.subrange(span.0 as int, span.1 as int) == trim(text@.subrange(from as int, to as int)),
{
    let start = skip_leading_space(text, from, to);
    let end = skip_trailing_space(text, start, to);
    (start, end)
}

} // verus!

//! Laws of the compiler: what holds of every template, proved once.

use crate::generate::OptionsView;
use crate::parser::{
    import_of, is_unescaped, lemma_next_delimiter, literal_parts, next_delimiter, normalized,
    scan_from, scanned, ImportView, ParseErrorView, PartView, CLOSE_DELIMITER, ESCAPE,
    OPEN_DELIMITER,
};
use crate::text::{is_space, trim, trim_end, trim_start};
use crate::{is_outcome, parsed, CompileError, TemplateView};
use vstd::prelude::*;

verus! {

/// Whether `start..end` is the span of `s` that is left when the whitespace
/// at both ends of `s` is cut off: all before it and all behind it is
/// whitespace, and unless it is empty it begins and ends with a character
/// that is none.
pub open spec fn is_inner_span(s: Seq<char>, start: int, end: int) -> bool {
    &&& 0 <= start <= end <= s.len()
    &&& forall|i: int| 0 <= i < start ==> is_space(#[trigger] s[i])
    &&& forall|i: int| end <= i < s.len() ==> is_space(#[trigger] s[i])
    &&& start < end ==> !is_space(s[start]) && !is_space(s[end - 1])
}

/// Where the text begins that `trim_start` leaves.
proof fn lemma_trim_start(s: Seq<char>) -> (start: int)
    ensures
        0 <= start <= s.len(),
        trim_start(s) == s.subrange(start, s.len() as int),
        forall|i: int| 0 <= i < start ==> is_space(#[trigger] s[i]),
        start < s.len() ==> !is_space(s[start]),
    decreases s.len(),
{
    if s.len() > 0 && is_space(s[0]) {
        let rest = s.drop_first();
        let inner = lemma_trim_start(rest);
        assert forall|i: int| 0 <= i < inner + 1 implies is_space(#[trigger] s[i]) by {
            if i > 0 {
                assert(s[i] == rest[i - 1]);
            }
        }
        inner + 1
    } else {
        0
    }
}

/// Where the text ends that `trim_end` leaves.
proof fn lemma_trim_end(s: Seq<char>) -> (end: int)
    ensures
        0 <= end <= s.len(),
        trim_end(s) == s.subrange(0, end),
        forall|i: int| end <= i < s.len() ==> is_space(#[trigger] s[i]),
        0 < end ==> !is_space(s[end - 1]),
    decreases s.len(),
{
    if s.len() > 0 && is_space(s.last()) {
        let rest = s.drop_last();
        let end = lemma_trim_end(rest);
        assert forall|i: int| end <= i < s.len() implies is_space(#[trigger] s[i]) by {
            if i < s.len() - 1 {
                assert(s[i] == rest[i]);
            }
        }
        end
    } else {
        s.len() as int
    }
}

/// Trimming cuts the whitespace off both ends of a text and nothing else:
/// what is left is the inner span of the text.
pub proof fn trim_leaves_the_inner_span(s: Seq<char>) -> (span: (int, int))
    ensures
        is_inner_span(s, span.0, span.1),
        trim(s) == s.subrange(span.0, span.1),
{
    let start = lemma_trim_start(s);
    let tail = s.subrange(start, s.len() as int);
    let end = lemma_trim_end(tail);
    assert forall|i: int| start + end <= i < s.len() implies is_space(#[trigger] s[i]) by {
        assert(s[i] == tail[i - start]);
    }
    (start, start + end)
}

/// A delimiter with a backslash right before it is never the one that a
/// search finds, wherever the search starts.
pub proof fn escaped_delimiter_is_skipped(text: Seq<char>, delimiter: char, from: int, i: int)
    requires
        0 < i < text.len(),
        text[i - 1] == ESCAPE,
    ensures
        next_delimiter(text, delimiter, from) != Some(i),
{
    lemma_next_delimiter(text, delimiter, from);
}

/// A text in which no open delimiter is unescaped, so that each one has a
/// backslash right before it, is literal text as a whole: it parses to a
/// template without imports whose body is the trimmed text, backslashes
/// included, or nothing if only whitespace is left.
pub proof fn escaped_delimiters_stay_literal(text: Seq<char>)
    requires
        forall|i: int| !is_unescaped(text, OPEN_DELIMITER, i),
    ensures
        parsed(text) == Ok::<TemplateView, ParseErrorView>(
            TemplateView { imports: Seq::empty(), parts: literal_parts(text) },
        ),
{
    lemma_next_delimiter(text, OPEN_DELIMITER, 0);
    assert(scanned(text) == Ok::<Seq<PartView>, ParseErrorView>(literal_parts(text))) by {
        assert(text.subrange(0, text.len() as int) =~= text);
    }
    let parts = literal_parts(text);
    if parts.len() > 0 {
        assert(normalized(parts.drop_first()) is Ok);
    }
}

/// A text without delimiter characters, and with more in it than whitespace,
/// parses to a template without imports whose body is one literal: the
/// trimmed text.
pub proof fn plain_text_is_one_literal(text: Seq<char>)
    requires
        forall|i: int|
            0 <= i < text.len() ==> text[i] != OPEN_DELIMITER && text[i] != CLOSE_DELIMITER,
        trim(text).len() > 0,
    ensures
        parsed(text) == Ok::<TemplateView, ParseErrorView>(
            TemplateView { imports: Seq::empty(), parts: seq![PartView::Literal(trim(text))] },
        ),
{
    escaped_delimiters_stay_literal(text);
}

/// From any position up to an unescaped open delimiter behind which no
/// unescaped close delimiter follows, the scan fails as unclosed.
proof fn lemma_unclosed_from(text: Seq<char>, open: int, cursor: int)
    requires
        0 <= cursor <= open,
        is_unescaped(text, OPEN_DELIMITER, open),
        forall|j: int| open < j ==> !is_unescaped(text, CLOSE_DELIMITER, j),
    ensures
        scan_from(text, cursor) == Err::<Seq<PartView>, ParseErrorView>(ParseErrorView::Unclosed),
    decreases open - cursor,
{
    lemma_next_delimiter(text, OPEN_DELIMITER, cursor);
    let first = next_delimiter(text, OPEN_DELIMITER, cursor)->0;
    lemma_next_delimiter(text, CLOSE_DELIMITER, first + 1);
    match next_delimiter(text, CLOSE_DELIMITER, first + 1) {
        Some(close) => lemma_unclosed_from(text, open, close + 1),
        None => {},
    }
}

/// A template with an unescaped open delimiter behind which no unescaped
/// close delimiter follows does not parse: it is unclosed.
pub proof fn unbalanced_open_is_unclosed(text: Seq<char>, open: int)
    requires
        is_unescaped(text, OPEN_DELIMITER, open),
        forall|j: int| open < j ==> !is_unescaped(text, CLOSE_DELIMITER, j),
    ensures
        parsed(text) == Err::<TemplateView, ParseErrorView>(ParseErrorView::Unclosed),
{
    lemma_unclosed_from(text, open, 0);
}

/// Whether a part is an import directive.
pub open spec fn is_import(part: PartView) -> bool {
    part is Import
}

/// Whether a part belongs to the body of a template.
pub open spec fn is_body(part: PartView) -> bool {
    !(part is Import)
}

/// The import that the directive `part` declares.
pub open spec fn declared(part: PartView) -> ImportView {
    import_of(part->Import_0)->0
}

/// Imports are hoisted: in the template that a sequence of parts makes up,
/// the body is the parts that are no import directives, the imports are the
/// directives taken apart, both in the order in which they occurred, and no
/// import directive is left in the body.
pub proof fn imports_are_hoisted(parts: Seq<PartView>)
    ensures
        normalized(parts) matches Ok(template) ==> {
            &&& template.wf()
            &&& template.parts == parts.filter(|p: PartView| is_body(p))
            &&& template.imports == parts.filter(|p: PartView| is_import(p)).map_values(
                |p: PartView| declared(p),
            )
        },
    decreases parts.len(),
{
    let body = |p: PartView| is_body(p);
    let import = |p: PartView| is_import(p);
    let declare = |p: PartView| declared(p);
    reveal_with_fuel(Seq::filter, 2);
    if parts.len() > 0 && normalized(parts) is Ok {
        let first = seq![parts[0]];
        let rest = parts.drop_first();
        imports_are_hoisted(rest);
        assert(parts =~= first + rest);
        Seq::filter_distributes_over_add(first, rest, body);
        Seq::filter_distributes_over_add(first, rest, import);
    }
}

/// Compiling is a function of the template text and the options: two
/// compilations of the same text with the same options both succeed with
/// the same output, or both fail with the same error.
pub proof fn compile_is_deterministic(
    content: Seq<char>,
    options: OptionsView,
    first: Result<String, CompileError>,
    second: Result<String, CompileError>,
)
    requires
        is_outcome(content, options, first),
        is_outcome(content, options, second),
    ensures
        match (first, second) {
            (Ok(a), Ok(b)) => a@ == b@,
            (Err(a), Err(b)) => a@ == b@,
            _ => false,
        },
{
}

} // verus!

//! The front half of the template compiler: the delimiter scanner, the
//! expression classifier and the import normalizer.
//!
//! ```text
//!    PREFIX
//!      v
//!     {@ EXPR }
//!     ^       ^
//!     DELIMITER
//! ```

use crate::pattern::{captured_groups, captures};
use crate::text::{
    copy_text, skip_leading_space, substring, to_chars, trim, trim_start, trimmed_span,
};
use crate::{DynamicHtml, TemplateView};
use vstd::prelude::*;
use vstd::string::*;

verus! {

/// The character that opens an expression.
pub const OPEN_DELIMITER: char = '{';

/// The character that closes an expression.
pub const CLOSE_DELIMITER: char = '}';

/// The prefix of an expression whose value is appended without escaping.
pub const UNESCAPED_PREFIX: char = '@';

/// The prefix of a statement that opens a block.
pub const OPEN_BLOCK_PREFIX: char = '!';

/// The prefix that closes a block, and may open the next one.
pub const CLOSE_BLOCK_PREFIX: char = '/';

/// The prefix of a bare statement.
pub const BLOCK_PREFIX: char = '#';

/// The prefix of an import directive.
pub const IMPORT_PREFIX: char = '$';

/// The character that keeps a following delimiter from counting as one.
pub const ESCAPE: char = '\\';

/// One piece of a template.
#[derive(Debug, Clone, PartialEq, Eq)]
pub enum HtmlPart {
    /// Verbatim output text.
    Literal(String),
    /// An expression whose value goes through the escaping function.
    Eval(String),
    /// An expression whose value is appended as it is.
    Unescaped(String),
    /// A statement fragment of the target language, emitted verbatim.
    Block(String),
    /// The raw text of an import directive, before normalization.
    Import(String),
}

/// The mathematical value of an [`HtmlPart`].
pub ghost enum PartView {
    Literal(Seq<char>),
    Eval(Seq<char>),
    Unescaped(Seq<char>),
    Block(Seq<char>),
    Import(Seq<char>),
}

impl View for HtmlPart {
    type V = PartView;

    open spec fn view(&self) -> PartView {
        match *self {
            HtmlPart::Literal(s) => PartView::Literal(s@),
            HtmlPart::Eval(s) => PartView::Eval(s@),
            HtmlPart::Unescaped(s) => PartView::Unescaped(s@),
            HtmlPart::Block(s) => PartView::Block(s@),
            HtmlPart::Import(s) => PartView::Import(s@),
        }
    }
}

/// The values of a sequence of parts, in order.
pub open spec fn parts_view(parts: Seq<HtmlPart>) -> Seq<PartView> {
    parts.map_values(|p: HtmlPart| p@)
}

/// Why a template could not be parsed.
#[derive(Debug, Clone, PartialEq, Eq)]
pub enum ParseError {
    /// An open delimiter has no matching close delimiter.
    Unclosed,
    /// The text of an import directive that the import grammar rejects.
    InvalidImport(String),
}

/// The mathematical value of a [`ParseError`].
pub ghost enum ParseErrorView {
    Unclosed,
    InvalidImport(Seq<char>),
}

impl View for ParseError {
    type V = ParseErrorView;

    open spec fn view(&self) -> ParseErrorView {
        match *self {
            ParseError::Unclosed => ParseErrorView::Unclosed,
            ParseError::InvalidImport(s) => ParseErrorView::InvalidImport(s@),
        }
    }
}

/// The role that the first character of an expression selects.
#[derive(Debug, Clone, Copy, PartialEq, Eq, Structural)]
pub enum Prefix {
    Eval,
    Unescaped,
    OpenBlock,
    CloseBlock,
    Block,
    Import,
}

impl Prefix {
    /// The role selected by `c`: each sentinel character has its own, every
    /// other character stands for an escaped evaluation.
    pub open spec fn of(c: char) -> Prefix {
        if c == UNESCAPED_PREFIX {
            Prefix::Unescaped
        } else if c == OPEN_BLOCK_PREFIX {
            Prefix::OpenBlock
        } else if c == CLOSE_BLOCK_PREFIX {
            Prefix::CloseBlock
        } else if c == BLOCK_PREFIX {
            Prefix::Block
        } else if c == IMPORT_PREFIX {
            Prefix::Import
        } else {
            Prefix::Eval
        }
    }

    /// Reads `c` as a prefix.
    pub fn from_char(c: char) -> (prefix: Prefix)
        ensures
            prefix == Prefix::of(c),
    {
        if c == UNESCAPED_PREFIX {
            Prefix::Unescaped
        } else if c == OPEN_BLOCK_PREFIX {
            Prefix::OpenBlock
        } else if c == CLOSE_BLOCK_PREFIX {
            Prefix::CloseBlock
        } else if c == BLOCK_PREFIX {
            Prefix::Block
        } else if c == IMPORT_PREFIX {
            Prefix::Import
        } else {
            Prefix::Eval
        }
    }
}

/// The part that an expression with the given prefix and content stands for.
pub open spec fn part_of(prefix: Prefix, content: Seq<char>) -> PartView {
    match prefix {
        Prefix::Eval => PartView::Eval(content),
        Prefix::Unescaped => PartView::Unescaped(content),
        Prefix::OpenBlock => PartView::Block(content),
        Prefix::CloseBlock => PartView::Block(content),
        Prefix::Block => PartView::Block(content),
        Prefix::Import => PartView::Import(content),
    }
}

impl HtmlPart {
    /// Wraps `content` in the variant that `prefix` selects.
    pub fn from_prefix(prefix: char, content: String) -> (part: HtmlPart)
        ensures
            part@ == part_of(Prefix::of(prefix), content@),
    {
        match Prefix::from_char(prefix) {
            Prefix::Eval => HtmlPart::Eval(content),
            Prefix::Unescaped => HtmlPart::Unescaped(content),
            Prefix::OpenBlock => HtmlPart::Block(content),
            Prefix::CloseBlock => HtmlPart::Block(content),
            Prefix::Block => HtmlPart::Block(content),
            Prefix::Import => HtmlPart::Import(content),
        }
    }

    /// Whether `prefix` is no sentinel, so that the expression it starts is an
    /// escaped evaluation and the character belongs to the expression.
    pub fn is_eval(prefix: char) -> (b: bool)
        ensures
            b == (Prefix::of(prefix) == Prefix::Eval),
    {
        match Prefix::from_char(prefix) {
            Prefix::Eval => true,
            Prefix::Unescaped => false,
            Prefix::OpenBlock => false,
            Prefix::CloseBlock => false,
            Prefix::Block => false,
            Prefix::Import => false,
        }
    }

    /// A copy with the same value.
    pub fn duplicate(&self) -> (part: HtmlPart)
        ensures
            part@ == self@,
    {
        match self {
            HtmlPart::Literal(s) => HtmlPart::Literal(s.clone()),
            HtmlPart::Eval(s) => HtmlPart::Eval(s.clone()),
            HtmlPart::Unescaped(s) => HtmlPart::Unescaped(s.clone()),
            HtmlPart::Block(s) => HtmlPart::Block(s.clone()),
            HtmlPart::Import(s) => HtmlPart::Import(s.clone()),
        }
    }
}

/// Whether position `i` of `text` holds `delimiter` with no escape character
/// right before it.
pub open spec fn is_unescaped(text: Seq<char>, delimiter: char, i: int) -> bool {
    &&& 0 <= i < text.len()
    &&& text[i] == delimiter
    &&& (i == 0 || text[i - 1] != ESCAPE)
}

/// The first position at or after `from` that holds an unescaped `delimiter`.
pub open spec fn next_delimiter(text: Seq<char>, delimiter: char, from: int) -> Option<int>
    decreases text.len() - from,
{
    if from < 0 || from >= text.len() {
        None
    } else if is_unescaped(text, delimiter, from) {
        Some(from)
    } else {
        next_delimiter(text, delimiter, from + 1)
    }
}

/// Searches `text` from position `from` for the next unescaped `delimiter`.
pub fn find_delimiter(text: &Vec<char>, delimiter: char, from: usize) -> (found: Option<usize>)
    ensures
        match found {
            Some(i) => {
                &&& from <= i
                &&& is_unescaped(text@, delimiter, i as int)
                &&& forall|j: int| from <= j < i ==> !is_unescaped(text@, delimiter, j)
                &&& next_delimiter(text@, delimiter, from as int) == Some(i as int)
            },
            None => {
                &&& forall|j: int| from <= j ==> !is_unescaped(text@, delimiter, j)
                &&& next_delimiter(text@, delimiter, from as int) is None
            },
        },
{
    let mut i: usize = from;
    while i < text.len()
        invariant
            from <= i,
            forall|j: int| from <= j < i ==> !is_unescaped(text@, delimiter, j),
            next_delimiter(text@, delimiter, from as int) == next_delimiter(
                text@,
                delimiter,
                i as int,
            ),
        decreases text.len() - i,
    {
        if text[i] == delimiter && (i == 0 || text[i - 1] != ESCAPE) {
            return Some(i);
        }
        i = i + 1;
    }
    None
}

/// Searches `content` from character position `last_index` for the next
/// `delimiter` that no backslash immediately precedes, and returns its
/// character position.
pub fn search_delimiter(delimiter: char, last_index: usize, content: &String) -> (found: Option<
    usize,
>)
    ensures
        match found {
            Some(i) => {
                &&& last_index <= i
                &&& is_unescaped(content@, delimiter, i as int)
                &&& forall|j: int| last_index <= j < i ==> !is_unescaped(content@, delimiter, j)
                &&& next_delimiter(content@, delimiter, last_index as int) == Some(i as int)
            },
            None => {
                &&& forall|j: int| last_index <= j ==> !is_unescaped(content@, delimiter, j)
                &&& next_delimiter(content@, delimiter, last_index as int) is None
            },
        },
{
    let text = to_chars(content.as_str());
    find_delimiter(&text, delimiter, last_index)
}

/// The part that the text between two delimiters stands for, if any.
///
/// The text is trimmed and its first character read as a prefix. An
/// expression without a sentinel prefix is kept whole. Otherwise the prefix is
/// stripped and the rest trimmed; nothing is left of an expression that is
/// then empty, except for a closing block, which stands for `}` alone.
pub open spec fn classify(raw: Seq<char>) -> Option<PartView> {
    let expr = trim(raw);
    if expr.len() == 0 {
        None
    } else {
        let rest = trim_start(expr.drop_first());
        match Prefix::of(expr[0]) {
            Prefix::Eval => Some(PartView::Eval(expr)),
            Prefix::CloseBlock => if expr.len() > 1 {
                Some(PartView::Block("} "@ + rest + " {"@))
            } else {
                Some(PartView::Block("}"@))
            },
            Prefix::OpenBlock => if rest.len() == 0 {
                None
            } else {
                Some(PartView::Block(rest + " {"@))
            },
            prefix => if rest.len() == 0 {
                None
            } else {
                Some(part_of(prefix, rest))
            },
        }
    }
}

/// The text behind the prefix at `text[start]`, up to `end`, without its
/// leading whitespace; nothing if nothing is left.
fn strip_prefix(text: &Vec<char>, start: usize, end: usize) -> (rest: Option<String>)
    requires
        start < end <= text.len(),
    ensures
        match rest {
            Some(rest) => rest@.len() > 0 && rest@ == trim_start(
                text@.subrange(start + 1, end as int),
            ),
            None => trim_start(text@.subrange(start + 1, end as int)).len() == 0,
        },
{
    let rest_start = skip_leading_space(text, start + 1, end);
    if rest_start == end {
        None
    } else {
        Some(substring(text, rest_start, end))
    }
}

/// Classifies the expression held in `text[from..to]`.
pub fn classify_span(text: &Vec<char>, from: usize, to: usize) -> (part: Option<HtmlPart>)
    requires
        from <= to <= text.len(),
    ensures
        match part {
            Some(p) => classify(text@.subrange(from as int, to as int)) == Some(p@),
            None => classify(text@.subrange(from as int, to as int)) is None,
        },
{
    let (start, end) = trimmed_span(text, from, to);
    if start == end {
        return None;
    }
    let ghost expr = text@.subrange(start as int, end as int);
    assert(expr.drop_first() =~= text@.subrange(start + 1, end as int));
    match Prefix::from_char(text[start]) {
        Prefix::Eval => Some(HtmlPart::Eval(substring(text, start, end))),
        Prefix::CloseBlock => {
            if end - start > 1 {
                let rest_start = skip_leading_space(text, start + 1, end);
                let mut content = String::from_str("} ");
                content.append(substring(text, rest_start, end).as_str());
                content.append(" {");
                Some(HtmlPart::Block(content))
            } else {
                Some(HtmlPart::Block(String::from_str("}")))
            }
        },
        Prefix::OpenBlock => match strip_prefix(text, start, end) {
            Some(mut content) => {
                content.append(" {");
                Some(HtmlPart::Block(content))
            },
            None => None,
        },
        Prefix::Unescaped => match strip_prefix(text, start, end) {
            Some(content) => Some(HtmlPart::Unescaped(content)),
            None => None,
        },
        Prefix::Block => match strip_prefix(text, start, end) {
            Some(content) => Some(HtmlPart::Block(content)),
            None => None,
        },
        Prefix::Import => match strip_prefix(text, start, end) {
            Some(content) => Some(HtmlPart::Import(content)),
            None => None,
        },
    }
}

/// Classifies the raw text of one expression: the text between an open
/// delimiter and its close delimiter.
pub fn handle_expression(expr: &str) -> (part: Option<HtmlPart>)
    ensures
        match part {
            Some(p) => classify(expr@) == Some(p@),
            None => classify(expr@) is None,
        },
{
    let text = to_chars(expr);
    assert(text@.subrange(0, text@.len() as int) =~= expr@);
    classify_span(&text, 0, text.len())
}

/// The parts that a span of literal text contributes: the trimmed text as one
/// literal, or nothing when only whitespace is left.
pub open spec fn literal_parts(span: Seq<char>) -> Seq<PartView> {
    if trim(span).len() == 0 {
        Seq::empty()
    } else {
        seq![PartView::Literal(trim(span))]
    }
}

/// The parts that the text between two delimiters contributes.
pub open spec fn expression_parts(span: Seq<char>) -> Seq<PartView> {
    match classify(span) {
        Some(part) => seq![part],
        None => Seq::empty(),
    }
}

/// `parts` in front of what the rest of a scan gave.
pub open spec fn prepend(
    parts: Seq<PartView>,
    rest: Result<Seq<PartView>, ParseErrorView>,
) -> Result<Seq<PartView>, ParseErrorView> {
    match rest {
        Ok(more) => Ok(parts + more),
        Err(e) => Err(e),
    }
}

/// A delimiter found at or after `from` lies within the text, at or after
/// `from`, and is unescaped; no position between the two is.
pub proof fn lemma_next_delimiter(text: Seq<char>, delimiter: char, from: int)
    ensures
        match next_delimiter(text, delimiter, from) {
            Some(i) => {
                &&& 0 <= from <= i < text.len()
                &&& is_unescaped(text, delimiter, i)
                &&& forall|j: int| from <= j < i ==> !is_unescaped(text, delimiter, j)
            },
            None => forall|j: int| 0 <= from <= j ==> !is_unescaped(text, delimiter, j),
        },
    decreases text.len() - from,
{
    if 0 <= from < text.len() && !is_unescaped(text, delimiter, from) {
        lemma_next_delimiter(text, delimiter, from + 1);
    }
}

/// The parts of `text` from position `cursor` on.
///
/// The text up to the next unescaped open delimiter is a literal span. The
/// text between that delimiter and the next unescaped close delimiter is an
/// expression, and the scan goes on behind the close delimiter. An open
/// delimiter with no close delimiter behind it fails the scan.
pub open spec fn scan_from(text: Seq<char>, cursor: int) -> Result<Seq<PartView>, ParseErrorView>
    decreases text.len() - cursor,
{
    if cursor < 0 || cursor >= text.len() {
        Ok(Seq::empty())
    } else {
        match next_delimiter(text, OPEN_DELIMITER, cursor) {
            None => Ok(literal_parts(text.subrange(cursor, text.len() as int))),
            Some(open) => match next_delimiter(text, CLOSE_DELIMITER, open + 1) {
                None => Err(ParseErrorView::Unclosed),
                Some(close) => {
                    proof {
                        lemma_next_delimiter(text, OPEN_DELIMITER, cursor);
                        lemma_next_delimiter(text, CLOSE_DELIMITER, open + 1);
                    }
                    prepend(
                        literal_parts(text.subrange(cursor, open)) + expression_parts(
                            text.subrange(open + 1, close),
                        ),
                        scan_from(text, close + 1),
                    )
                },
            },
        }
    }
}

/// The parts of the template `text`, imports still among them.
pub open spec fn scanned(text: Seq<char>) -> Result<Seq<PartView>, ParseErrorView> {
    scan_from(text, 0)
}

fn push_literal(parts: &mut Vec<HtmlPart>, text: &Vec<char>, from: usize, to: usize)
    requires
        from <= to <= text.len(),
    ensures
        parts_view(final(parts)@) == parts_view(old(parts)@) + literal_parts(
            text@.subrange(from as int, to as int),
        ),
{
    let (start, end) = trimmed_span(text, from, to);
    if start < end {
        parts.push(HtmlPart::Literal(substring(text, start, end)));
    }
}

fn push_expression(parts: &mut Vec<HtmlPart>, text: &Vec<char>, from: usize, to: usize)
    requires
        from <= to <= text.len(),
    ensures
        parts_view(final(parts)@) == parts_view(old(parts)@) + expression_parts(
            text@.subrange(from as int, to as int),
        ),
{
    match classify_span(text, from, to) {
        Some(part) => parts.push(part),
        None => {},
    }
}

/// Splits the template `content` into literal and expression parts, in the
/// order in which they occur.
pub fn scan(content: &str) -> (result: Result<Vec<HtmlPart>, ParseError>)
    ensures
        match result {
            Ok(parts) => scanned(content@) == Ok::<Seq<PartView>, ParseErrorView>(
                parts_view(parts@),
            ),
            Err(e) => scanned(content@) == Err::<Seq<PartView>, ParseErrorView>(e@),
        },
{
    let text = to_chars(content);
    let mut parts: Vec<HtmlPart> = Vec::new();
    let mut cursor: usize = 0;
    while cursor < text.len()
        invariant
            cursor <= text.len(),
            text@ == content@,
            scan_from(text@, 0) == prepend(parts_view(parts@), scan_from(text@, cursor as int)),
        decreases text.len() - cursor,
    {
        let ghost before = parts_view(parts@);
        match find_delimiter(&text, OPEN_DELIMITER, cursor) {
            None => {
                push_literal(&mut parts, &text, cursor, text.len());
                cursor = text.len();
            },
            Some(open) => {
                match find_delimiter(&text, CLOSE_DELIMITER, open + 1) {
                    None => {
                        return Err(ParseError::Unclosed);
                    },
                    Some(close) => {
                        push_literal(&mut parts, &text, cursor, open);
                        push_expression(&mut parts, &text, open + 1, close);
                        proof {
                            let literal = literal_parts(text@.subrange(cursor as int, open as int));
                            let expression = expression_parts(
                                text@.subrange(open + 1, close as int),
                            );
                            match scan_from(text@, close + 1) {
                                Ok(more) => {
                                    assert(before + ((literal + expression) + more) =~= ((before
                                        + literal) + expression) + more);
                                },
                                Err(_) => {},
                            }
                        }
                        cursor = close + 1;
                    },
                }
            },
        }
    }
    Ok(parts)
}

/// The regular expression of an import directive: an optional list of named
/// bindings followed by `from`, the file name in double quotes, and an
/// optional `as` with the name of the default binding. The named bindings are
/// one or more identifiers with a comma between each two, each with an
/// optional `as` and its alias. A directive has to match from its first
/// character to its last.
///
/// It accepts, among others:
///
/// ```text
/// func1, Func2 as f2, a from "./file.ts" as DEFAULT
/// "./file.ts" as DEFAULT
/// func1, Func2 as f2, a from "./file.ts"
/// a as b from "./file.ts"
/// ```
///
/// It rejects a `from` with no bindings before it, a comma with no binding
/// before it, a file name without quotes, and anything before or behind a
/// directive.
pub const IMPORT_REGEX: &'static str =
    r#"^(?:([a-zA-Z_$][a-zA-Z0-9_$]*(?:\s+as\s+[a-zA-Z_$][a-zA-Z0-9_$]*)?(?:,\s*[a-zA-Z_$][a-zA-Z0-9_$]*(?:\s+as\s+[a-zA-Z_$][a-zA-Z0-9_$]*)?)*) from\s+)?"([^"]+)"(?:\s+as\s+([a-zA-Z_$][a-zA-Z0-9_$]*))?$"#;

/// An import directive, taken apart.
#[derive(Debug, Clone, PartialEq, Eq)]
pub struct HtmlImportPart {
    /// The directive as it was written.
    pub content: String,
    /// The file to import from. Never empty in a parsed directive.
    pub filename: String,
    /// The name of the default binding.
    pub default_name: Option<String>,
    /// The list of named bindings, as it was written.
    pub imports: Option<String>,
}

/// The mathematical value of an [`HtmlImportPart`].
pub ghost struct ImportView {
    pub content: Seq<char>,
    pub filename: Seq<char>,
    pub default_name: Option<Seq<char>>,
    pub imports: Option<Seq<char>>,
}

impl View for HtmlImportPart {
    type V = ImportView;

    open spec fn view(&self) -> ImportView {
        ImportView {
            content: self.content@,
            filename: self.filename@,
            default_name: self.default_name.deep_view(),
            imports: self.imports.deep_view(),
        }
    }
}

/// The values of a sequence of imports, in order.
pub open spec fn imports_view(imports: Seq<HtmlImportPart>) -> Seq<ImportView> {
    imports.map_values(|i: HtmlImportPart| i@)
}

/// The import that the capture groups of [`IMPORT_REGEX`] describe: group 0
/// holds what matched, group 1 the named bindings, group 2 the file name and
/// group 3 the default binding. There is none unless the match is the whole
/// directive, and none without a file name that is not empty.
pub open spec fn import_from(content: Seq<char>, groups: Seq<Option<Seq<char>>>) -> Option<
    ImportView,
> {
    if groups.len() > 3 && groups[0] == Some(content) && groups[2] is Some && groups[2]->0.len()
        > 0 {
        Some(
            ImportView {
                content,
                filename: groups[2]->0,
                default_name: groups[3],
                imports: groups[1],
            },
        )
    } else {
        None
    }
}

/// The import that the directive `content` declares, if the import grammar
/// accepts it.
pub open spec fn import_of(content: Seq<char>) -> Option<ImportView> {
    match captured_groups(IMPORT_REGEX@, content) {
        Some(groups) => import_from(content, groups),
        None => None,
    }
}

impl HtmlImportPart {
    /// Builds the import that the directive `content` declares from the
    /// capture groups that [`IMPORT_REGEX`] gave on it. There is none unless
    /// the regular expression matched the whole of `content`.
    pub fn from_groups(content: &str, groups: &Vec<Option<String>>) -> (import: Option<
        HtmlImportPart,
    >)
        ensures
            match import {
                Some(i) => import_from(content@, groups.deep_view()) == Some(i@),
                None => import_from(content@, groups.deep_view()) is None,
            },
    {
        if groups.len() <= 3 {
            return None;
        }
        let directive = String::from_str(content);
        match (&groups[0], &groups[2]) {
            (Some(matched), Some(filename)) => {
                if *matched != directive || filename.as_str().is_empty() {
                    None
                } else {
                    Some(
                        HtmlImportPart {
                            content: directive,
                            filename: filename.clone(),
                            default_name: copy_text(&groups[3]),
                            imports: copy_text(&groups[1]),
                        },
                    )
                }
            },
            _ => None,
        }
    }

    /// Matches the directive `content`, as a whole, against the import
    /// grammar.
    pub fn parse(content: &str) -> (import: Option<HtmlImportPart>)
        ensures
            match import {
                Some(i) => import_of(content@) == Some(i@),
                None => import_of(content@) is None,
            },
    {
        match captures(IMPORT_REGEX, content) {
            Some(groups) => HtmlImportPart::from_groups(content, &groups),
            None => None,
        }
    }
}

/// What is known of a template once its first parts have been sorted into
/// `imports` and `parts` and `rest` is what the remaining parts gave.
pub open spec fn merged(
    imports: Seq<ImportView>,
    parts: Seq<PartView>,
    rest: Result<TemplateView, ParseErrorView>,
) -> Result<TemplateView, ParseErrorView> {
    match rest {
        Ok(t) => Ok(TemplateView { imports: imports + t.imports, parts: parts + t.parts }),
        Err(e) => Err(e),
    }
}

/// The template that the scanned `parts` make up.
///
/// Each import directive is matched against the import grammar and joins the
/// imports; every other part joins the body. Both keep the order in which
/// their parts occur. The first directive that the grammar rejects fails the
/// whole template.
pub open spec fn normalized(parts: Seq<PartView>) -> Result<TemplateView, ParseErrorView>
    decreases parts.len(),
{
    if parts.len() == 0 {
        Ok(TemplateView { imports: Seq::empty(), parts: Seq::empty() })
    } else {
        match parts[0] {
            PartView::Import(content) => match import_of(content) {
                Some(import) => merged(seq![import], Seq::empty(), normalized(parts.drop_first())),
                None => Err(ParseErrorView::InvalidImport(content)),
            },
            part => merged(Seq::empty(), seq![part], normalized(parts.drop_first())),
        }
    }
}

/// Separates the import directives among `dirty_parts` from the body parts
/// and takes each directive apart.
pub fn normalize(dirty_parts: Vec<HtmlPart>) -> (result: Result<DynamicHtml, ParseError>)
    ensures
        match result {
            Ok(template) => {
                &&& normalized(parts_view(dirty_parts@)) == Ok::<TemplateView, ParseErrorView>(
                    template@,
                )
                &&& template@.wf()
            },
            Err(e) => normalized(parts_view(dirty_parts@)) == Err::<TemplateView, ParseErrorView>(
                e@,
            ),
        },
{
    let mut imports: Vec<HtmlImportPart> = Vec::new();
    let mut parts: Vec<HtmlPart> = Vec::new();
    let ghost all = parts_view(dirty_parts@);
    let mut i: usize = 0;
    assert(all.skip(0) =~= all);
    while i < dirty_parts.len()
        invariant
            i <= dirty_parts.len(),
            all == parts_view(dirty_parts@),
            normalized(all) == merged(
                imports_view(imports@),
                parts_view(parts@),
                normalized(all.skip(i as int)),
            ),
            (TemplateView { imports: imports_view(imports@), parts: parts_view(parts@) }).wf(),
        decreases dirty_parts.len() - i,
    {
        let ghost imports_before = imports_view(imports@);
        let ghost parts_before = parts_view(parts@);
        let ghost rest = normalized(all.skip(i + 1));
        assert(all.skip(i as int).drop_first() =~= all.skip(i + 1));
        match &dirty_parts[i] {
            HtmlPart::Import(content) => {
                match HtmlImportPart::parse(content.as_str()) {
                    Some(import) => {
                        imports.push(import);
                        assert(imports_view(imports@) =~= imports_before.push(import@));
                        assert(rest matches Ok(t) ==> imports_before + (seq![import@] + t.imports)
                            =~= imports_before.push(import@) + t.imports);
                    },
                    None => {
                        return Err(ParseError::InvalidImport(content.clone()));
                    },
                }
            },
            part => {
                let copy = part.duplicate();
                parts.push(copy);
                assert(parts_view(parts@) =~= parts_before.push(copy@));
                assert(rest matches Ok(t) ==> parts_before + (seq![copy@] + t.parts)
                    =~= parts_before.push(copy@) + t.parts);
            },
        }
        i = i + 1;
    }
    Ok(DynamicHtml { imports, parts })
}

} // verus!

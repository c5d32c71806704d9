//! A compiler for text templates: literal markup interleaved with delimited
//! expressions goes in, the source of a function that renders the template
//! from a data object comes out.
//!
//! A template passes through four stages, each a function of its input:
//!
//! 1. the scanner splits the text at its delimiters ([`parser::scan`]);
//! 2. the classifier gives each expression its role
//!    ([`parser::handle_expression`]);
//! 3. the normalizer hoists the import directives out of the body and takes
//!    them apart ([`parser::normalize`]);
//! 4. the generator writes the output ([`DynamicHtml::generate`]).
//!
//! [`compile`] runs all four. What each stage gives is stated over the
//! mathematical value of its input, and proved; [`laws`] holds what follows
//! for every template.
//!
//! Three things are left to other crates and assumed to be functions of
//! their arguments: matching a regular expression ([`pattern`]), arithmetic
//! on the text of paths ([`paths`]) and reading JSON ([`payload`]). Of the
//! standard library, [`text`] assumes what `String::push` does.

pub mod generate;
pub mod laws;
pub mod parser;
pub mod paths;
pub mod pattern;
pub mod payload;
pub mod text;

pub use generate::GenerateOptions;
pub use parser::{HtmlImportPart, HtmlPart, ParseError};

use generate::{
    assemble, assembled, import_statement, join_with, joined, render_import, render_part, resolve,
    resolved_filename, statement, OptionsView,
};
use parser::{
    imports_view, normalize, normalized, parts_view, scan, scanned, ImportView, ParseErrorView,
    PartView,
};
use paths::{parent, parent_of};
use vstd::prelude::*;
use vstd::string::*;

verus! {

/// A parsed template: its imports, hoisted out of the text, and the parts of
/// its body in the order of the text.
#[derive(Debug, Clone)]
pub struct DynamicHtml {
    pub imports: Vec<HtmlImportPart>,
    pub parts: Vec<HtmlPart>,
}

/// The mathematical value of a [`DynamicHtml`].
pub ghost struct TemplateView {
    pub imports: Seq<ImportView>,
    pub parts: Seq<PartView>,
}

impl TemplateView {
    /// What holds of every parsed template: no import directive is left in
    /// the body, and every import names a file.
    pub open spec fn wf(self) -> bool {
        &&& forall|i: int| 0 <= i < self.parts.len() ==> !(#[trigger] self.parts[i] is Import)
        &&& forall|i: int|
            0 <= i < self.imports.len() ==> (#[trigger] self.imports[i]).filename.len() > 0
    }
}

impl View for DynamicHtml {
    type V = TemplateView;

    open spec fn view(&self) -> TemplateView {
        TemplateView { imports: imports_view(self.imports@), parts: parts_view(self.parts@) }
    }
}

/// The template that the text `content` denotes.
pub open spec fn parsed(content: Seq<char>) -> Result<TemplateView, ParseErrorView> {
    match scanned(content) {
        Ok(parts) => normalized(parts),
        Err(e) => Err(e),
    }
}

/// Why a template could not be compiled.
#[derive(Debug, Clone, PartialEq, Eq)]
pub enum CompileError {
    /// An open delimiter has no matching close delimiter.
    Unclosed,
    /// The text of an import directive that the import grammar rejects.
    InvalidImport(String),
    /// The path of a relative import could not be computed.
    PathResolutionFailure,
}

/// The mathematical value of a [`CompileError`].
pub ghost enum CompileErrorView {
    Unclosed,
    InvalidImport(Seq<char>),
    PathResolutionFailure,
}

impl View for CompileError {
    type V = CompileErrorView;

    open spec fn view(&self) -> CompileErrorView {
        match *self {
            CompileError::Unclosed => CompileErrorView::Unclosed,
            CompileError::InvalidImport(s) => CompileErrorView::InvalidImport(s@),
            CompileError::PathResolutionFailure => CompileErrorView::PathResolutionFailure,
        }
    }
}

/// The failure of a compilation that stops at the parse error `e`.
pub open spec fn parse_failure(e: ParseErrorView) -> CompileErrorView {
    match e {
        ParseErrorView::Unclosed => CompileErrorView::Unclosed,
        ParseErrorView::InvalidImport(content) => CompileErrorView::InvalidImport(content),
    }
}

impl CompileError {
    /// The failure of a compilation that stops at the parse error `e`.
    pub fn from_parse(e: ParseError) -> (error: CompileError)
        ensures
            error@ == parse_failure(e@),
    {
        match e {
            ParseError::Unclosed => CompileError::Unclosed,
            ParseError::InvalidImport(content) => CompileError::InvalidImport(content),
        }
    }
}

/// Whether the file name of every import of `template` can be resolved.
pub open spec fn resolvable(template: TemplateView, options: OptionsView) -> bool {
    forall|i: int|
        0 <= i < template.imports.len() ==> resolved_filename(
            (#[trigger] template.imports[i]).filename,
            options.input_path,
            options.output_path,
        ) is Some
}

/// The import statements of the output, one for each import.
pub open spec fn import_statements(imports: Seq<ImportView>, options: OptionsView) -> Seq<
    Seq<char>,
> {
    imports.map_values(
        |import: ImportView|
            import_statement(
                import,
                resolved_filename(import.filename, options.input_path, options.output_path)->0,
            ),
    )
}

/// The statements of the render function, one for each part of the body.
pub open spec fn body_statements(parts: Seq<PartView>, options: OptionsView) -> Seq<Seq<char>> {
    parts.map_values(|part: PartView| statement(part, options.escape_function))
}

/// The import statements of the output as one text: each on a line of its
/// own, each closed by a semicolon.
pub open spec fn imports_text(template: TemplateView, options: OptionsView) -> Seq<char> {
    joined(import_statements(template.imports, options), ";\n"@) + ";"@
}

/// The statements of the body as one text: each on a line of its own, each
/// closed by a semicolon.
pub open spec fn body_text(template: TemplateView, options: OptionsView) -> Seq<char> {
    joined(body_statements(template.parts, options), ";\n  "@) + ";"@
}

/// The output for `template`; there is none when the file name of an import
/// cannot be resolved.
pub open spec fn rendered(template: TemplateView, options: OptionsView) -> Option<Seq<char>> {
    if resolvable(template, options) {
        Some(assembled(options, imports_text(template, options), body_text(template, options)))
    } else {
        None
    }
}

/// The outcome of compiling the template text `content`.
pub open spec fn compiled(content: Seq<char>, options: OptionsView) -> Result<
    Seq<char>,
    CompileErrorView,
> {
    match parsed(content) {
        Ok(template) => match rendered(template, options) {
            Some(text) => Ok(text),
            None => Err(CompileErrorView::PathResolutionFailure),
        },
        Err(e) => Err(parse_failure(e)),
    }
}

impl DynamicHtml {
    /// Parses the template `content`.
    pub fn parse(content: &String) -> (result: Result<DynamicHtml, ParseError>)
        ensures
            match result {
                Ok(template) => {
                    &&& parsed(content@) == Ok::<TemplateView, ParseErrorView>(template@)
                    &&& template@.wf()
                },
                Err(e) => parsed(content@) == Err::<TemplateView, ParseErrorView>(e@),
            },
    {
        match scan(content.as_str()) {
            Ok(parts) => normalize(parts),
            Err(e) => Err(e),
        }
    }

    /// Renders the import statements, with every file name resolved against
    /// the paths of `options`. Fails if one cannot be resolved.
    pub fn render_imports(&self, options: &GenerateOptions) -> (text: Option<String>)
        ensures
            match text {
                Some(text) => resolvable(self@, options@) && text@ == imports_text(
                    self@,
                    options@,
                ),
                None => !resolvable(self@, options@),
            },
    {
        let input_dir = parent(options.input_path.as_str());
        let output_dir = parent(options.output_path.as_str());
        let mut statements: Vec<String> = Vec::new();
        let mut i: usize = 0;
        while i < self.imports.len()
            invariant
                i <= self.imports.len(),
                statements.len() == i,
                input_dir.deep_view() == parent_of(options@.input_path),
                output_dir.deep_view() == parent_of(options@.output_path),
                forall|j: int|
                    0 <= j < i ==> resolved_filename(
                        (#[trigger] self@.imports[j]).filename,
                        options@.input_path,
                        options@.output_path,
                    ) is Some,
                statements.deep_view() == import_statements(self@.imports, options@).take(
                    i as int,
                ),
            decreases self.imports.len() - i,
        {
            let import = &self.imports[i];
            assert(self@.imports[i as int] == import@);
            match resolve(import.filename.as_str(), &input_dir, &output_dir) {
                Some(filename) => {
                    let statement = render_import(import, filename.as_str());
                    statements.push(statement);
                },
                None => {
                    return None;
                },
            }
            i = i + 1;
        }
        assert(import_statements(self@.imports, options@).take(i as int) =~= import_statements(
            self@.imports,
            options@,
        ));
        let mut text = join_with(&statements, ";\n");
        text.append(";");
        Some(text)
    }

    /// Renders the statements of the body.
    pub fn render_body(&self, options: &GenerateOptions) -> (text: String)
        ensures
            text@ == body_text(self@, options@),
    {
        let mut statements: Vec<String> = Vec::new();
        let mut i: usize = 0;
        while i < self.parts.len()
            invariant
                i <= self.parts.len(),
                statements.len() == i,
                statements.deep_view() == body_statements(self@.parts, options@).take(i as int),
            decreases self.parts.len() - i,
        {
            let statement = render_part(&self.parts[i], options.escape_function.as_str());
            statements.push(statement);
            i = i + 1;
        }
        assert(body_statements(self@.parts, options@).take(i as int) =~= body_statements(
            self@.parts,
            options@,
        ));
        let mut text = join_with(&statements, ";\n  ");
        text.append(";");
        text
    }

    /// Generates the output for this template: the source of a module whose
    /// default export renders the template.
    ///
    /// Fails with [`CompileError::PathResolutionFailure`], and with no other
    /// error, exactly when the file name of an import cannot be resolved.
    pub fn generate(&self, options: &GenerateOptions) -> (result: Result<String, CompileError>)
        ensures
            match result {
                Ok(text) => rendered(self@, options@) == Some(text@),
                Err(e) => rendered(self@, options@) is None && e@
                    == CompileErrorView::PathResolutionFailure,
            },
    {
        match self.render_imports(options) {
            Some(imports) => {
                let body = self.render_body(options);
                Ok(assemble(options, imports.as_str(), body.as_str()))
            },
            None => Err(CompileError::PathResolutionFailure),
        }
    }
}

/// Whether `result` is what compiling the template text `content` gives: the
/// output, or the error that stopped the compilation.
pub open spec fn is_outcome(
    content: Seq<char>,
    options: OptionsView,
    result: Result<String, CompileError>,
) -> bool {
    match result {
        Ok(text) => compiled(content, options) == Ok::<Seq<char>, CompileErrorView>(text@),
        Err(e) => compiled(content, options) == Err::<Seq<char>, CompileErrorView>(e@),
    }
}

/// Compiles the template text `content` into the source of a module whose
/// default export renders the template.
///
/// Fails with [`CompileError::Unclosed`] for an open delimiter without a
/// close delimiter, else with [`CompileError::InvalidImport`] for the first
/// import directive that the import grammar rejects, else with
/// [`CompileError::PathResolutionFailure`] if the file name of an import
/// cannot be resolved.
pub fn compile(content: &String, options: &GenerateOptions) -> (result: Result<
    String,
    CompileError,
>)
    ensures
        is_outcome(content@, options@, result),
{
    match DynamicHtml::parse(content) {
        Ok(template) => template.generate(options),
        Err(e) => Err(CompileError::from_parse(e)),
    }
}

} // verus!

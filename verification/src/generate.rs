//! The back half of the template compiler: the options of a rendering and
//! the statements that the parts of a template turn into.

use crate::parser::{HtmlImportPart, HtmlPart, ImportView, PartView};
use crate::paths::{diff, join, joined_path, parent_of, relative_path};
use crate::payload::{json_members, members};
use crate::text::{copy_text, starts_with};
use vstd::prelude::*;
use vstd::string::*;

verus! {

/// How a template is rendered.
#[derive(Debug, Clone)]
pub struct GenerateOptions {
    /// Where the template is. Only the text of the path is used.
    pub input_path: String,
    /// Where the output goes. Only the text of the path is used.
    pub output_path: String,
    /// Text put at the very top of the output.
    pub header: String,
    /// Text put before the imports of the template.
    pub pre_imports: String,
    /// The name that the render function gives to its data parameter.
    pub data_varname: String,
    /// The name of the function that escapes evaluated expressions.
    pub escape_function: String,
}

/// The mathematical value of a [`GenerateOptions`].
pub ghost struct OptionsView {
    pub input_path: Seq<char>,
    pub output_path: Seq<char>,
    pub header: Seq<char>,
    pub pre_imports: Seq<char>,
    pub data_varname: Seq<char>,
    pub escape_function: Seq<char>,
}

impl View for GenerateOptions {
    type V = OptionsView;

    open spec fn view(&self) -> OptionsView {
        OptionsView {
            input_path: self.input_path@,
            output_path: self.output_path@,
            header: self.header@,
            pre_imports: self.pre_imports@,
            data_varname: self.data_varname@,
            escape_function: self.escape_function@,
        }
    }
}

/// The text of a field, or `default` where the field is missing.
pub open spec fn or_default(field: Option<Seq<char>>, default: Seq<char>) -> Seq<char> {
    match field {
        Some(text) => text,
        None => default,
    }
}

fn field_or(field: Option<String>, default: &str) -> (text: String)
    ensures
        text@ == or_default(field.deep_view(), default@),
{
    match field {
        Some(text) => text,
        None => String::from_str(default),
    }
}

/// The text that the first member called `name` holds, if there is such a
/// member and its value is a string.
pub open spec fn field(members: Seq<(Seq<char>, Option<Seq<char>>)>, name: Seq<char>) -> Option<
    Seq<char>,
>
    decreases members.len(),
{
    if members.len() == 0 {
        None
    } else if members[0].0 == name {
        members[0].1
    } else {
        field(members.drop_first(), name)
    }
}

/// Looks up the text of the member called `name`.
pub fn lookup(members: &Vec<(String, Option<String>)>, name: &str) -> (value: Option<String>)
    ensures
        value.deep_view() == field(members.deep_view(), name@),
{
    let key = String::from_str(name);
    let mut i: usize = 0;
    assert(members.deep_view().skip(0) =~= members.deep_view());
    while i < members.len()
        invariant
            i <= members.len(),
            key@ == name@,
            field(members.deep_view(), name@) == field(members.deep_view().skip(i as int), name@),
        decreases members.len() - i,
    {
        assert(members.deep_view().skip(i as int).drop_first() =~= members.deep_view().skip(
            i + 1,
        ));
        if members[i].0 == key {
            return copy_text(&members[i].1);
        }
        i = i + 1;
    }
    None
}

/// The options that the members of a configuration payload describe.
///
/// The recognized members are `input_path`, `output_path`, `header`,
/// `pre_imports`, `data_varname` and `escape_function`, each a string. There
/// are no options without an `input_path`. A missing `data_varname` is
/// `data`, every other missing member is empty.
pub open spec fn options_of(members: Seq<(Seq<char>, Option<Seq<char>>)>) -> Option<OptionsView> {
    match field(members, "input_path"@) {
        Some(input_path) => Some(
            OptionsView {
                input_path,
                output_path: or_default(field(members, "output_path"@), Seq::empty()),
                header: or_default(field(members, "header"@), Seq::empty()),
                pre_imports: or_default(field(members, "pre_imports"@), Seq::empty()),
                data_varname: or_default(field(members, "data_varname"@), "data"@),
                escape_function: or_default(field(members, "escape_function"@), Seq::empty()),
            },
        ),
        None => None,
    }
}

/// The options that the JSON text `payload` describes; none if the text is
/// no JSON object or has no `input_path`.
pub open spec fn decoded(payload: Seq<char>) -> Option<OptionsView> {
    match json_members(payload) {
        Some(members) => options_of(members),
        None => None,
    }
}

impl GenerateOptions {
    /// Options with the given paths, no header, nothing before the imports,
    /// `data` as the name of the data parameter and no escaping function.
    pub fn new(input_path: String, output_path: String) -> (options: GenerateOptions)
        ensures
            options@ == (OptionsView {
                input_path: input_path@,
                output_path: output_path@,
                header: Seq::empty(),
                pre_imports: Seq::empty(),
                data_varname: "data"@,
                escape_function: Seq::empty(),
            }),
    {
        GenerateOptions {
            input_path,
            output_path,
            header: String::new(),
            pre_imports: String::new(),
            data_varname: String::from_str("data"),
            escape_function: String::new(),
        }
    }

    /// Options from the fields of a configuration payload, each field as the
    /// payload gave it or missing. The input path is required: without it
    /// there are no options. A missing name of the data parameter is `data`,
    /// every other missing field is empty.
    pub fn from_fields(
        input_path: Option<String>,
        output_path: Option<String>,
        header: Option<String>,
        pre_imports: Option<String>,
        data_varname: Option<String>,
        escape_function: Option<String>,
    ) -> (options: Option<GenerateOptions>)
        ensures
            match options {
                Some(o) => input_path is Some && o@ == (OptionsView {
                    input_path: input_path->0@,
                    output_path: or_default(output_path.deep_view(), Seq::empty()),
                    header: or_default(header.deep_view(), Seq::empty()),
                    pre_imports: or_default(pre_imports.deep_view(), Seq::empty()),
                    data_varname: or_default(data_varname.deep_view(), "data"@),
                    escape_function: or_default(escape_function.deep_view(), Seq::empty()),
                }),
                None => input_path is None,
            },
    {
        proof {
            reveal_strlit("");
            assert(""@ =~= Seq::<char>::empty());
        }
        match input_path {
            Some(input_path) => Some(
                GenerateOptions {
                    input_path,
                    output_path: field_or(output_path, ""),
                    header: field_or(header, ""),
                    pre_imports: field_or(pre_imports, ""),
                    data_varname: field_or(data_varname, "data"),
                    escape_function: field_or(escape_function, ""),
                },
            ),
            None => None,
        }
    }

    /// Options from the members of a configuration payload.
    pub fn from_members(members: &Vec<(String, Option<String>)>) -> (options: Option<
        GenerateOptions,
    >)
        ensures
            match options {
                Some(o) => options_of(members.deep_view()) == Some(o@),
                None => options_of(members.deep_view()) is None,
            },
    {
        GenerateOptions::from_fields(
            lookup(members, "input_path"),
            lookup(members, "output_path"),
            lookup(members, "header"),
            lookup(members, "pre_imports"),
            lookup(members, "data_varname"),
            lookup(members, "escape_function"),
        )
    }

    /// Decodes the options from the JSON text `payload`, which has to be an
    /// object with a string `input_path`.
    pub fn from_json(payload: String) -> (options: GenerateOptions)
        requires
            decoded(payload@) is Some,
        ensures
            decoded(payload@) == Some(options@),
    {
        match members(payload.as_str()) {
            Some(members) => match GenerateOptions::from_members(&members) {
                Some(options) => options,
                None => unreached(),
            },
            None => unreached(),
        }
    }

    /// Decodes the options from the JSON text `payload`, if it is an object
    /// with a string `input_path`.
    pub fn try_from_json(payload: String) -> (options: Option<GenerateOptions>)
        ensures
            match options {
                Some(o) => decoded(payload@) == Some(o@),
                None => decoded(payload@) is None,
            },
    {
        let decodes = match members(payload.as_str()) {
            Some(members) => GenerateOptions::from_members(&members).is_some(),
            None => false,
        };
        if decodes {
            Some(GenerateOptions::from_json(payload))
        } else {
            None
        }
    }

    /// Replaces the header.
    pub fn set_header(&mut self, header: String) -> (options: &mut GenerateOptions)
        ensures
            options@ == (OptionsView { header: header@, ..old(self)@ }),
            *final(self) == *final(options),
    {
        self.header = header;
        self
    }

    /// Replaces the name of the data parameter.
    pub fn set_data_varname(&mut self, data_varname: String) -> (options: &mut GenerateOptions)
        ensures
            options@ == (OptionsView { data_varname: data_varname@, ..old(self)@ }),
            *final(self) == *final(options),
    {
        self.data_varname = data_varname;
        self
    }

    /// Replaces the name of the escaping function.
    pub fn set_escape_function(
        &mut self,
        escape_function: String,
    ) -> (options: &mut GenerateOptions)
        ensures
            options@ == (OptionsView { escape_function: escape_function@, ..old(self)@ }),
            *final(self) == *final(options),
    {
        self.escape_function = escape_function;
        self
    }

    /// Adds one import statement to the text before the imports of the
    /// template: a line break, then `import`, then a semicolon.
    pub fn add_import(&mut self, import: String) -> (options: &mut GenerateOptions)
        ensures
            options@ == (OptionsView {
                pre_imports: old(self)@.pre_imports + "\n"@ + import@ + ";"@,
                ..old(self)@
            }),
            *final(self) == *final(options),
    {
        self.pre_imports.append("\n");
        self.pre_imports.append(import.as_str());
        self.pre_imports.append(";");
        self
    }
}

/// What one character of literal text becomes inside a double-quoted string
/// of the output: a backslash, a line break and a double quote are written
/// with a backslash, every other character stands for itself.
pub open spec fn escaped_char(c: char) -> Seq<char> {
    if c == '\\' {
        seq!['\\', '\\']
    } else if c == '\n' {
        seq!['\\', 'n']
    } else if c == '"' {
        seq!['\\', '"']
    } else {
        seq![c]
    }
}

/// `text` with each of its characters escaped.
pub open spec fn escaped(text: Seq<char>) -> Seq<char>
    decreases text.len(),
{
    if text.len() == 0 {
        Seq::empty()
    } else {
        escaped(text.drop_last()) + escaped_char(text.last())
    }
}

/// Escapes literal text for a double-quoted string of the output.
pub fn escape(data: &String) -> (text: String)
    ensures
        text@ == escaped(data@),
{
    let mut text = String::new();
    for c in it: data.as_str().chars()
        invariant
            it.seq() == data@,
            text@ == escaped(it.seq().take(it.index() as int)),
    {
        assert(it.seq().take(it.index() + 1).drop_last() =~= it.seq().take(it.index() as int));
        if c == '\\' {
            text.push('\\');
            text.push('\\');
        } else if c == '\n' {
            text.push('\\');
            text.push('n');
        } else if c == '"' {
            text.push('\\');
            text.push('"');
        } else {
            text.push(c);
        }
    }
    assert(data@.take(data@.len() as int) =~= data@);
    text
}

/// The statement that one part of the body turns into.
///
/// An expression is written into the statement as it is, between double
/// parentheses, so that the statement appends its value when it runs.
pub open spec fn statement(part: PartView, escape_function: Seq<char>) -> Seq<char> {
    match part {
        PartView::Literal(text) => "__output__ += \""@ + escaped(text) + "\""@,
        PartView::Eval(expr) => "__output__ += "@ + escape_function + "(("@ + expr + "))"@,
        PartView::Unescaped(expr) => "__output__ += String(("@ + expr + "))"@,
        PartView::Block(code) => code,
        PartView::Import(_) => "// INVALID TYPE"@,
    }
}

/// Renders one part of the body as a statement: a literal is appended to
/// the output escaped and quoted, the value of an evaluated expression goes
/// through `escape_function`, the value of an unescaped one through `String`
/// alone, and a block is emitted as it is.
pub fn render_part(part: &HtmlPart, escape_function: &str) -> (text: String)
    ensures
        text@ == statement(part@, escape_function@),
{
    match part {
        HtmlPart::Literal(content) => {
            let mut text = String::from_str("__output__ += \"");
            text.append(escape(content).as_str());
            text.append("\"");
            text
        },
        HtmlPart::Eval(content) => {
            let mut text = String::from_str("__output__ += ");
            text.append(escape_function);
            text.append("((");
            text.append(content.as_str());
            text.append("))");
            text
        },
        HtmlPart::Unescaped(content) => {
            let mut text = String::from_str("__output__ += String((");
            text.append(content.as_str());
            text.append("))");
            text
        },
        HtmlPart::Block(content) => content.clone(),
        HtmlPart::Import(_) => String::from_str("// INVALID TYPE"),
    }
}

/// The named bindings of an import statement, in braces.
pub open spec fn braced(names: Seq<char>) -> Seq<char> {
    "{ "@ + names + " }"@
}

/// What stands between `import` and the file name of an import statement:
/// the clauses that the import has, the default binding first, with a comma
/// between the two if it has both, and `from` behind them. Nothing stands
/// there for an import without bindings.
pub open spec fn bindings(import: ImportView) -> Seq<char> {
    match (import.default_name, import.imports) {
        (Some(name), Some(names)) => name + ", "@ + braced(names) + " from "@,
        (Some(name), None) => name + " from "@,
        (None, Some(names)) => braced(names) + " from "@,
        (None, None) => Seq::empty(),
    }
}

/// The statement that imports `import` from the file `filename`: `import`,
/// the bindings, and the file name in double quotes. An import without
/// bindings names the file alone and is imported for its effects.
pub open spec fn import_statement(import: ImportView, filename: Seq<char>) -> Seq<char> {
    "import "@ + bindings(import) + "\""@ + filename + "\""@
}

/// Renders `import` as a statement that imports from `filename`, the file
/// name of the import as seen from the output.
pub fn render_import(import: &HtmlImportPart, filename: &str) -> (text: String)
    ensures
        text@ == import_statement(import@, filename@),
{
    let mut text = String::from_str("import ");
    match (&import.default_name, &import.imports) {
        (Some(name), Some(names)) => {
            text.append(name.as_str());
            text.append(", ");
            text.append(render_braced(names.as_str()).as_str());
            text.append(" from ");
        },
        (Some(name), None) => {
            text.append(name.as_str());
            text.append(" from ");
        },
        (None, Some(names)) => {
            text.append(render_braced(names.as_str()).as_str());
            text.append(" from ");
        },
        (None, None) => {},
    }
    text.append("\"");
    text.append(filename);
    text.append("\"");
    text
}

fn render_braced(names: &str) -> (text: String)
    ensures
        text@ == braced(names@),
{
    let mut text = String::from_str("{ ");
    text.append(names);
    text.append(" }");
    text
}

/// `items` written one after the other with `separator` between each two.
pub open spec fn joined(items: Seq<Seq<char>>, separator: Seq<char>) -> Seq<char>
    decreases items.len(),
{
    if items.len() == 0 {
        Seq::empty()
    } else if items.len() == 1 {
        items[0]
    } else {
        joined(items.drop_last(), separator) + separator + items.last()
    }
}

/// Joins `items` with `separator` between each two.
pub fn join_with(items: &Vec<String>, separator: &str) -> (text: String)
    ensures
        text@ == joined(items.deep_view(), separator@),
{
    let mut text = String::new();
    let mut i: usize = 0;
    while i < items.len()
        invariant
            i <= items.len(),
            text@ == joined(items.deep_view().take(i as int), separator@),
        decreases items.len() - i,
    {
        assert(items.deep_view().take(i + 1).drop_last() =~= items.deep_view().take(i as int));
        if i > 0 {
            text.append(separator);
        }
        text.append(items[i].as_str());
        i = i + 1;
    }
    assert(items.deep_view().take(items.len() as int) =~= items.deep_view());
    text
}

/// `path` with `./` in front of it, unless it starts with a dot already.
pub open spec fn with_marker(path: Seq<char>) -> Seq<char> {
    if starts_with(path, '.') {
        path
    } else {
        "./"@ + path
    }
}

/// Marks `path` as relative: puts `./` in front of it unless it starts with
/// a dot already.
pub fn mark_relative(path: &str) -> (marked: String)
    ensures
        marked@ == with_marker(path@),
{
    if begins_with_dot(path) {
        String::from_str(path)
    } else {
        let mut marked = String::from_str("./");
        marked.append(path);
        marked
    }
}

fn begins_with_dot(text: &str) -> (b: bool)
    ensures
        b == starts_with(text@, '.'),
{
    !text.is_empty() && text.get_char(0) == '.'
}

/// The file name of an import as seen from the output, given the directory
/// of the template and the directory of the output.
///
/// A file name that starts with a dot is relative to the template: its path
/// from the directory of the output is computed and marked as relative. There
/// is none when a directory is missing or the path arithmetic fails. Any
/// other file name names a package and stays as it is.
pub open spec fn resolved_in(
    filename: Seq<char>,
    input_dir: Option<Seq<char>>,
    output_dir: Option<Seq<char>>,
) -> Option<Seq<char>> {
    if !starts_with(filename, '.') {
        Some(filename)
    } else if input_dir is Some && output_dir is Some && joined_path(input_dir->0, filename)
        is Some {
        match relative_path(joined_path(input_dir->0, filename)->0, output_dir->0) {
            Some(relative) => Some(with_marker(relative)),
            None => None,
        }
    } else {
        None
    }
}

/// The file name of an import of the template at `input_path` as seen from
/// the output at `output_path`.
pub open spec fn resolved_filename(
    filename: Seq<char>,
    input_path: Seq<char>,
    output_path: Seq<char>,
) -> Option<Seq<char>> {
    resolved_in(filename, parent_of(input_path), parent_of(output_path))
}

/// Resolves the file name of an import against the directory of the template
/// and the directory of the output.
pub fn resolve(
    filename: &str,
    input_dir: &Option<String>,
    output_dir: &Option<String>,
) -> (resolved: Option<String>)
    ensures
        resolved.deep_view() == resolved_in(
            filename@,
            input_dir.deep_view(),
            output_dir.deep_view(),
        ),
{
    if !begins_with_dot(filename) {
        return Some(String::from_str(filename));
    }
    match (input_dir, output_dir) {
        (Some(input_dir), Some(output_dir)) => {
            match join(input_dir.as_str(), filename) {
                Some(target) => match diff(target.as_str(), output_dir.as_str()) {
                    Some(relative) => Some(mark_relative(relative.as_str())),
                    None => None,
                },
                None => None,
            }
        },
        _ => None,
    }
}

/// The whole output: the header, the text before the imports, the import
/// statements, and the render function around the statements of the body.
pub open spec fn assembled(options: OptionsView, imports: Seq<char>, body: Seq<char>) -> Seq<
    char,
> {
    options.header + "\n"@ + options.pre_imports + "\n"@ + imports
        + "\n\nexport default function("@ + options.data_varname
        + ": any, __output__: string = \"\"): string {\n  "@ + body
        + "\n  return __output__;\n}"@
}

/// Puts the output together from the rendered imports and the rendered body.
pub fn assemble(options: &GenerateOptions, imports: &str, body: &str) -> (text: String)
    ensures
        text@ == assembled(options@, imports@, body@),
{
    let mut text = options.header.clone();
    text.append("\n");
    text.append(options.pre_imports.as_str());
    text.append("\n");
    text.append(imports);
    text.append("\n\nexport default function(");
    text.append(options.data_varname.as_str());
    text.append(": any, __output__: string = \"\"): string {\n  ");
    text.append(body);
    text.append("\n  return __output__;\n}");
    text
}

} // verus!

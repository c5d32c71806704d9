use dynamic_html::generate::{
    assemble, escape, join_with, mark_relative, render_import, render_part, resolve,
    GenerateOptions,
};
use dynamic_html::parser::{HtmlImportPart, HtmlPart};
use dynamic_html::{CompileError, DynamicHtml};

fn options(input: &str, output: &str) -> GenerateOptions {
    GenerateOptions::new(input.to_string(), output.to_string())
}

fn import(filename: &str, default: Option<&str>, names: Option<&str>) -> HtmlImportPart {
    HtmlImportPart {
        content: String::new(),
        filename: filename.to_string(),
        default_name: default.map(|s| s.to_string()),
        imports: names.map(|s| s.to_string()),
    }
}

fn dir(path: &str) -> Option<String> {
    Some(path.to_string())
}

#[test]
fn new_options_have_the_defaults() {
    let o = options("/in/a.html", "/out/a.ts");
    assert_eq!(o.input_path, "/in/a.html");
    assert_eq!(o.output_path, "/out/a.ts");
    assert_eq!(o.header, "");
    assert_eq!(o.pre_imports, "");
    assert_eq!(o.data_varname, "data");
    assert_eq!(o.escape_function, "");
}

#[test]
fn setters_replace_one_field_each() {
    let mut o = options("i", "o");
    o.set_header("// header".to_string());
    assert_eq!(o.header, "// header");
    o.set_data_varname("props".to_string());
    assert_eq!(o.data_varname, "props");
    o.set_escape_function("esc".to_string());
    assert_eq!(o.escape_function, "esc");
    assert_eq!(o.input_path, "i");
    assert_eq!(o.output_path, "o");
    assert_eq!(o.pre_imports, "");
    assert_eq!(o.header, "// header");
    assert_eq!(o.data_varname, "props");
}

#[test]
fn setters_chain() {
    let mut o = options("i", "o");
    o.set_header("h".to_string())
        .set_data_varname("d".to_string())
        .set_escape_function("e".to_string())
        .add_import("import x from \"y\"".to_string());
    assert_eq!(o.header, "h");
    assert_eq!(o.data_varname, "d");
    assert_eq!(o.escape_function, "e");
    assert_eq!(o.pre_imports, "\nimport x from \"y\";");
}

#[test]
fn add_import_appends_a_line() {
    let mut o = options("i", "o");
    o.add_import("import a from \"a\"".to_string());
    o.add_import("import b from \"b\"".to_string());
    assert_eq!(o.pre_imports, "\nimport a from \"a\";\nimport b from \"b\";");
    assert_eq!(o.header, "");
}

#[test]
fn escape_rewrites_backslash_line_break_and_quote() {
    assert_eq!(escape(&"\\".to_string()), "\\\\");
    assert_eq!(escape(&"\n".to_string()), "\\n");
    assert_eq!(escape(&"\"".to_string()), "\\\"");
    assert_eq!(escape(&"a\\b\nc\"d".to_string()), "a\\\\b\\nc\\\"d");
}

#[test]
fn escape_leaves_other_text_alone() {
    assert_eq!(escape(&String::new()), "");
    assert_eq!(escape(&"<p class='x'>\tGrüße</p>\r".to_string()), "<p class='x'>\tGrüße</p>\r");
}

#[test]
fn escape_is_the_three_replacements_in_a_row() {
    for sample in ["", "plain", "\\n", "\\\\\"\n\"", "a\nb\\\"c", "\"\"\"", "\\\n\\\n"] {
        let expected =
            sample.replace("\\", "\\\\").replace("\n", "\\n").replace("\"", "\\\"");
        assert_eq!(escape(&sample.to_string()), expected);
    }
}

#[test]
fn literal_is_appended_escaped_and_quoted() {
    let part = HtmlPart::Literal("<a href=\"x\">\n".to_string());
    assert_eq!(render_part(&part, "esc"), "__output__ += \"<a href=\\\"x\\\">\\n\"");
}

#[test]
fn eval_goes_through_the_escaping_function() {
    let part = HtmlPart::Eval("user.name".to_string());
    assert_eq!(render_part(&part, "esc"), "__output__ += esc((user.name))");
    assert_eq!(render_part(&part, ""), "__output__ += ((user.name))");
}

#[test]
fn unescaped_goes_through_string_and_not_the_escaping_function() {
    let part = HtmlPart::Unescaped("name".to_string());
    assert_eq!(render_part(&part, "esc"), "__output__ += String((name))");
    assert_eq!(render_part(&part, ""), "__output__ += String((name))");
}

#[test]
fn block_is_emitted_as_it_is() {
    let part = HtmlPart::Block("if (a \"b\") {".to_string());
    assert_eq!(render_part(&part, "esc"), "if (a \"b\") {");
}

#[test]
fn import_in_the_body_is_marked_invalid() {
    let part = HtmlPart::Import("x from \"y\"".to_string());
    assert_eq!(render_part(&part, "esc"), "// INVALID TYPE");
}

#[test]
fn import_statement_with_named_bindings() {
    assert_eq!(
        render_import(&import("./a.ts", None, Some("x, y as z")), "./a.ts"),
        "import { x, y as z } from \"./a.ts\""
    );
}

#[test]
fn import_statement_with_default_and_named_bindings() {
    assert_eq!(
        render_import(&import("./a.ts", Some("D"), Some("x")), "../lib/a.ts"),
        "import D, { x } from \"../lib/a.ts\""
    );
}

#[test]
fn import_statement_with_default_binding_alone() {
    assert_eq!(render_import(&import("pkg", Some("D"), None), "pkg"), "import D from \"pkg\"");
}

#[test]
fn import_statement_without_bindings() {
    assert_eq!(render_import(&import("pkg", None, None), "pkg"), "import \"pkg\"");
    assert_eq!(
        render_import(&import("./a.css", None, None), "../styles/a.css"),
        "import \"../styles/a.css\""
    );
}

#[test]
fn join_puts_the_separator_between_items() {
    let items = vec!["a".to_string(), "b".to_string(), "c".to_string()];
    assert_eq!(join_with(&items, ";\n"), "a;\nb;\nc");
    assert_eq!(join_with(&vec!["a".to_string()], ";\n"), "a");
    assert_eq!(join_with(&vec![], ";\n"), "");
    assert_eq!(join_with(&vec![String::new(), String::new()], "-"), "-");
}

#[test]
fn mark_relative_adds_the_marker_when_missing() {
    assert_eq!(mark_relative("u.ts"), "./u.ts");
    assert_eq!(mark_relative("lib/u.ts"), "./lib/u.ts");
    assert_eq!(mark_relative(""), "./");
    assert_eq!(mark_relative("/abs/u.ts"), ".//abs/u.ts");
}

#[test]
fn mark_relative_keeps_a_leading_dot() {
    assert_eq!(mark_relative("../u.ts"), "../u.ts");
    assert_eq!(mark_relative("./u.ts"), "./u.ts");
    assert_eq!(mark_relative(".hidden"), ".hidden");
}

#[test]
fn resolve_leaves_package_names_alone() {
    assert_eq!(resolve("preact", &dir("/in"), &dir("/out")), Some("preact".to_string()));
    assert_eq!(resolve("@scope/pkg", &None, &None), Some("@scope/pkg".to_string()));
    assert_eq!(resolve("/abs/file.ts", &None, &dir("/out")), Some("/abs/file.ts".to_string()));
    assert_eq!(resolve("", &None, &None), Some(String::new()));
}

#[test]
fn resolve_within_one_directory() {
    assert_eq!(resolve("./u.ts", &dir("/a/b"), &dir("/a/b")), Some("./u.ts".to_string()));
}

#[test]
fn resolve_into_another_directory() {
    assert_eq!(
        resolve("./u.ts", &dir("/src/views"), &dir("/out")),
        Some("../src/views/u.ts".to_string())
    );
    assert_eq!(
        resolve("../lib/u.ts", &dir("/src/views"), &dir("/src")),
        Some("./views/../lib/u.ts".to_string())
    );
    assert_eq!(
        resolve("./u.ts", &dir("src"), &dir("out/deep")),
        Some("../../src/u.ts".to_string())
    );
}

#[test]
fn resolve_from_an_empty_directory() {
    assert_eq!(resolve("./u.ts", &dir(""), &dir("")), Some("./u.ts".to_string()));
}

#[test]
fn resolve_fails_without_a_directory() {
    assert_eq!(resolve("./u.ts", &None, &dir("/out")), None);
    assert_eq!(resolve("./u.ts", &dir("/in"), &None), None);
}

#[test]
fn resolve_fails_from_absolute_to_relative() {
    assert_eq!(resolve("./u.ts", &dir("views"), &dir("/out")), None);
}

#[test]
fn resolve_fails_behind_a_parent_directory_of_the_output() {
    assert_eq!(resolve("./u.ts", &dir("a"), &dir("../b")), None);
}

#[test]
fn assemble_puts_the_pieces_in_order() {
    let mut o = options("i", "o");
    o.set_header("// generated".to_string());
    o.add_import("import esc from \"esc\"".to_string());
    o.set_data_varname("props".to_string());
    assert_eq!(
        assemble(&o, "IMPORTS;", "BODY;"),
        "// generated\n\nimport esc from \"esc\";\nIMPORTS;\n\n\
         export default function(props: any, __output__: string = \"\"): string {\n  \
         BODY;\n  return __output__;\n}"
    );
}

#[test]
fn body_statements_are_joined_with_semicolons() {
    let template = DynamicHtml {
        imports: vec![],
        parts: vec![
            HtmlPart::Literal("a".to_string()),
            HtmlPart::Block("if (x) {".to_string()),
            HtmlPart::Eval("x".to_string()),
            HtmlPart::Block("}".to_string()),
        ],
    };
    let mut o = options("i", "o");
    o.set_escape_function("esc".to_string());
    assert_eq!(
        template.render_body(&o),
        "__output__ += \"a\";\n  if (x) {;\n  __output__ += esc((x));\n  };"
    );
}

#[test]
fn empty_body_is_one_semicolon() {
    let template = DynamicHtml { imports: vec![], parts: vec![] };
    assert_eq!(template.render_body(&options("i", "o")), ";");
    assert_eq!(template.render_imports(&options("i", "o")), Some(";".to_string()));
}

#[test]
fn import_statements_are_joined_with_semicolons() {
    let template = DynamicHtml {
        imports: vec![import("./u.ts", None, Some("x")), import("pkg", Some("P"), None)],
        parts: vec![],
    };
    assert_eq!(
        template.render_imports(&options("/src/page.html", "/out/page.ts")),
        Some("import { x } from \"../src/u.ts\";\nimport P from \"pkg\";".to_string())
    );
}

#[test]
fn imports_without_a_directory_fail() {
    let template = DynamicHtml { imports: vec![import("./u.ts", None, None)], parts: vec![] };
    assert_eq!(template.render_imports(&options("", "/out/page.ts")), None);
    assert_eq!(template.render_imports(&options("/", "/out/page.ts")), None);
    assert_eq!(
        template.generate(&options("", "/out/page.ts")),
        Err(CompileError::PathResolutionFailure)
    );
}

#[test]
fn package_imports_need_no_directory() {
    let template = DynamicHtml { imports: vec![import("pkg", None, Some("a"))], parts: vec![] };
    assert_eq!(
        template.render_imports(&options("", "")),
        Some("import { a } from \"pkg\";".to_string())
    );
}

#[test]
fn generate_imports_a_default_binding_without_a_comma() {
    let template = DynamicHtml {
        imports: vec![HtmlImportPart {
            content: "\"./a.ts\" as D".to_string(),
            filename: "./a.ts".to_string(),
            default_name: Some("D".to_string()),
            imports: None,
        }],
        parts: vec![],
    };
    let output = template.generate(&options("/p/in.html", "/p/out.ts")).unwrap();
    assert!(output.contains("import D from \"./a.ts\""));
    assert!(!output.contains("D,"));
}

#[test]
fn generate_appends_the_value_of_an_unescaped_expression() {
    let template = DynamicHtml::parse(&"Hello {@name}".to_string()).unwrap();
    let mut o = options("/a.html", "/b.html");
    o.set_escape_function("esc".to_string());
    let output = template.generate(&o).unwrap();
    assert!(output.contains("__output__ += String((name))"));
    assert!(!output.contains("esc("));
    assert!(!output.contains("\"name\""));
}

#[test]
fn generate_writes_the_whole_module() {
    let template = DynamicHtml {
        imports: vec![import("./u.ts", Some("U"), Some("a, b as c"))],
        parts: vec![
            HtmlPart::Literal("<p>".to_string()),
            HtmlPart::Eval("data.x".to_string()),
            HtmlPart::Literal("</p>".to_string()),
        ],
    };
    let mut o = options("/app/views/page.html", "/app/build/page.ts");
    o.set_escape_function("esc".to_string());
    o.set_header("// h".to_string());
    assert_eq!(
        template.generate(&o),
        Ok("// h\n\nimport U, { a, b as c } from \"../views/u.ts\";\n\n\
            export default function(data: any, __output__: string = \"\"): string {\n  \
            __output__ += \"<p>\";\n  __output__ += esc((data.x));\n  __output__ += \"</p>\";\n  \
            return __output__;\n}"
            .to_string())
    );
}

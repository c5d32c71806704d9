use dynamic_html::parser::{
    handle_expression, HtmlPart, Prefix, BLOCK_PREFIX, CLOSE_BLOCK_PREFIX, IMPORT_PREFIX,
    OPEN_BLOCK_PREFIX, UNESCAPED_PREFIX,
};

#[test]
fn prefixes_select_their_roles() {
    assert_eq!(Prefix::from_char('@'), Prefix::Unescaped);
    assert_eq!(Prefix::from_char('!'), Prefix::OpenBlock);
    assert_eq!(Prefix::from_char('/'), Prefix::CloseBlock);
    assert_eq!(Prefix::from_char('#'), Prefix::Block);
    assert_eq!(Prefix::from_char('$'), Prefix::Import);
    assert_eq!(Prefix::from_char('x'), Prefix::Eval);
    assert_eq!(Prefix::from_char(' '), Prefix::Eval);
    assert_eq!(Prefix::from_char('{'), Prefix::Eval);
}

#[test]
fn prefix_constants_are_the_sentinels() {
    assert_eq!(UNESCAPED_PREFIX, '@');
    assert_eq!(OPEN_BLOCK_PREFIX, '!');
    assert_eq!(CLOSE_BLOCK_PREFIX, '/');
    assert_eq!(BLOCK_PREFIX, '#');
    assert_eq!(IMPORT_PREFIX, '$');
}

#[test]
fn is_eval_holds_of_every_character_but_the_sentinels() {
    assert!(!HtmlPart::is_eval('@'));
    assert!(!HtmlPart::is_eval('!'));
    assert!(!HtmlPart::is_eval('/'));
    assert!(!HtmlPart::is_eval('#'));
    assert!(!HtmlPart::is_eval('$'));
    assert!(HtmlPart::is_eval('a'));
    assert!(HtmlPart::is_eval('('));
    assert!(HtmlPart::is_eval('é'));
}

#[test]
fn from_prefix_wraps_the_content() {
    let content = || "c".to_string();
    assert_eq!(HtmlPart::from_prefix('@', content()), HtmlPart::Unescaped(content()));
    assert_eq!(HtmlPart::from_prefix('!', content()), HtmlPart::Block(content()));
    assert_eq!(HtmlPart::from_prefix('/', content()), HtmlPart::Block(content()));
    assert_eq!(HtmlPart::from_prefix('#', content()), HtmlPart::Block(content()));
    assert_eq!(HtmlPart::from_prefix('$', content()), HtmlPart::Import(content()));
    assert_eq!(HtmlPart::from_prefix('x', content()), HtmlPart::Eval(content()));
}

#[test]
fn duplicate_gives_an_equal_part() {
    for part in [
        HtmlPart::Literal("a".to_string()),
        HtmlPart::Eval("b".to_string()),
        HtmlPart::Unescaped("c".to_string()),
        HtmlPart::Block("d".to_string()),
        HtmlPart::Import("e".to_string()),
    ] {
        assert_eq!(part.duplicate(), part);
    }
}

#[test]
fn empty_expression_is_dropped() {
    assert_eq!(handle_expression(""), None);
    assert_eq!(handle_expression("   "), None);
    assert_eq!(handle_expression("\n\t"), None);
}

#[test]
fn expression_without_prefix_is_evaluated() {
    assert_eq!(handle_expression("x"), Some(HtmlPart::Eval("x".to_string())));
    assert_eq!(
        handle_expression("  user.name  "),
        Some(HtmlPart::Eval("user.name".to_string()))
    );
    assert_eq!(handle_expression("a b"), Some(HtmlPart::Eval("a b".to_string())));
}

#[test]
fn unescaped_prefix_is_stripped() {
    assert_eq!(handle_expression("@name"), Some(HtmlPart::Unescaped("name".to_string())));
    assert_eq!(
        handle_expression(" @   name "),
        Some(HtmlPart::Unescaped("name".to_string()))
    );
}

#[test]
fn open_block_gets_an_opening_brace() {
    assert_eq!(
        handle_expression("! if (x)"),
        Some(HtmlPart::Block("if (x) {".to_string()))
    );
    assert_eq!(
        handle_expression("!for (const a of b) "),
        Some(HtmlPart::Block("for (const a of b) {".to_string()))
    );
}

#[test]
fn bare_block_is_kept_as_it_is() {
    assert_eq!(
        handle_expression("# let a = 1"),
        Some(HtmlPart::Block("let a = 1".to_string()))
    );
}

#[test]
fn close_block_alone_is_a_closing_brace() {
    assert_eq!(handle_expression("/"), Some(HtmlPart::Block("}".to_string())));
    assert_eq!(handle_expression("  /  "), Some(HtmlPart::Block("}".to_string())));
}

#[test]
fn close_block_with_more_chains_into_a_new_block() {
    assert_eq!(handle_expression("/ else"), Some(HtmlPart::Block("} else {".to_string())));
    assert_eq!(
        handle_expression("/else if (y) "),
        Some(HtmlPart::Block("} else if (y) {".to_string()))
    );
}

#[test]
fn import_prefix_is_stripped() {
    assert_eq!(
        handle_expression("$ x from \"./u.ts\""),
        Some(HtmlPart::Import("x from \"./u.ts\"".to_string()))
    );
}

#[test]
fn prefix_with_nothing_behind_it_is_dropped() {
    assert_eq!(handle_expression("@"), None);
    assert_eq!(handle_expression("!"), None);
    assert_eq!(handle_expression("#"), None);
    assert_eq!(handle_expression("$"), None);
    assert_eq!(handle_expression(" @   "), None);
    assert_eq!(handle_expression("!\n"), None);
}

#[test]
fn only_the_first_character_is_a_prefix() {
    assert_eq!(handle_expression("@@a"), Some(HtmlPart::Unescaped("@a".to_string())));
    assert_eq!(handle_expression("a@b"), Some(HtmlPart::Eval("a@b".to_string())));
    assert_eq!(handle_expression("//"), Some(HtmlPart::Block("} / {".to_string())));
}

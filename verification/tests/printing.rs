use pxp_formatter::command::Command;
use pxp_formatter::config::{Config, ConfigError};
use pxp_formatter::printer::{print, print_with};

fn text(s: &str) -> Command {
    Command::Text(s.as_bytes().to_vec())
}

fn call() -> Command {
    Command::Group(vec![
        text("foo("),
        Command::Indent,
        Command::Line,
        text("bar,"),
        Command::LineOrSpace,
        text("baz"),
        Command::Unindent,
        Command::Line,
        text(")"),
    ])
}

fn printed(document: &Command, max_width: usize, indent_width: usize) -> String {
    String::from_utf8(print(document, max_width, indent_width).unwrap()).unwrap()
}

#[test]
fn group_that_fits_is_printed_on_one_line() {
    assert_eq!(printed(&call(), 20, 4), "foo(bar, baz)");
}

#[test]
fn group_that_does_not_fit_is_broken() {
    assert_eq!(printed(&call(), 10, 4), "foo(\n    bar,\n    baz\n)");
}

#[test]
fn group_fits_exactly_at_its_flat_width() {
    assert_eq!(printed(&call(), 13, 4), "foo(bar, baz)");
    assert_eq!(printed(&call(), 12, 4), "foo(\n    bar,\n    baz\n)");
}

#[test]
fn hard_line_forces_the_group_to_break() {
    let document = Command::Group(vec![Command::Commands(vec![
        text("a"),
        Command::HardLine,
        text("b"),
    ])]);
    assert_eq!(printed(&document, 80, 4), "a\nb");
}

#[test]
fn forced_break_breaks_soft_breaks_of_its_group_at_any_width() {
    let document = Command::Group(vec![
        text("a"),
        Command::LineOrSpace,
        text("b"),
        Command::Commands(vec![Command::EmptyLine]),
        text("c"),
    ]);
    assert_eq!(printed(&document, 1000, 2), "a\nb\n\nc");
}

#[test]
fn texts_alone_are_joined() {
    let document = Command::Commands(vec![
        text("let "),
        Command::Group(vec![text("x"), text(" = ")]),
        text(""),
        text("1;"),
    ]);
    assert_eq!(printed(&document, 3, 4), "let x = 1;");
    assert_eq!(printed(&text("alone"), 1, 1), "alone");
}

#[test]
fn empty_document_prints_nothing() {
    assert_eq!(printed(&Command::Commands(vec![]), 80, 4), "");
    assert_eq!(printed(&Command::Group(vec![]), 80, 4), "");
}

#[test]
fn nested_indents_add_one_width_each() {
    let document = Command::Commands(vec![
        text("a"),
        Command::Indent,
        Command::HardLine,
        text("b"),
        Command::Indent,
        Command::Indent,
        Command::HardLine,
        text("c"),
        Command::Unindent,
        Command::HardLine,
        text("d"),
    ]);
    assert_eq!(printed(&document, 80, 4), "a\n    b\n            c\n        d");
    assert_eq!(printed(&document, 80, 1), "a\n b\n   c\n  d");
}

#[test]
fn unindent_below_zero_stays_at_zero() {
    let document = Command::Commands(vec![
        Command::Unindent,
        Command::Unindent,
        text("a"),
        Command::HardLine,
        text("b"),
        Command::Indent,
        Command::HardLine,
        text("c"),
    ]);
    assert_eq!(printed(&document, 80, 4), "a\nb\n    c");
}

#[test]
fn empty_line_is_blank_at_any_depth() {
    let document = Command::Commands(vec![
        Command::Indent,
        Command::Indent,
        text("a"),
        Command::EmptyLine,
        text("b"),
    ]);
    assert_eq!(printed(&document, 80, 2), "a\n\n    b");
}

#[test]
fn empty_line_is_blank_in_a_flat_group_s_neighbourhood() {
    let document = Command::Commands(vec![
        Command::Group(vec![text("a"), Command::LineOrSpace, text("b")]),
        Command::EmptyLine,
        Command::Group(vec![text("c"), Command::Line, text("d")]),
    ]);
    assert_eq!(printed(&document, 80, 4), "a b\n\ncd");
}

#[test]
fn soft_breaks_outside_any_group_are_broken() {
    let document = Command::Commands(vec![
        text("a"),
        Command::Line,
        text("b"),
        Command::LineOrSpace,
        text("c"),
    ]);
    assert_eq!(printed(&document, 80, 4), "a\nb\nc");
}

fn nested() -> Command {
    let inner = Command::Group(vec![text("bb"), Command::LineOrSpace, text("cc")]);
    Command::Group(vec![
        text("aaaaaa"),
        Command::Indent,
        Command::Line,
        inner,
        Command::Unindent,
        Command::Line,
        text("dddddd"),
    ])
}

#[test]
fn nested_group_is_flat_inside_a_broken_group() {
    assert_eq!(printed(&nested(), 16, 2), "aaaaaa\n  bb cc\ndddddd");
    assert_eq!(printed(&nested(), 13, 2), "aaaaaa\n  bb cc\ndddddd");
    assert_eq!(printed(&nested(), 17, 2), "aaaaaabb ccdddddd");
}

#[test]
fn soft_breaks_after_a_group_count_as_flat() {
    assert_eq!(printed(&nested(), 12, 2), "aaaaaa\n  bb\n  cc\ndddddd");
}

#[test]
fn nested_group_is_broken_inside_a_flat_group_after_a_blank_line() {
    let inner = Command::Group(vec![text("bbbb"), Command::LineOrSpace, text("c")]);
    let document = Command::Commands(vec![
        Command::Indent,
        Command::EmptyLine,
        Command::Group(vec![text("aaaa"), inner]),
    ]);
    assert_eq!(printed(&document, 10, 4), "\n\n    aaaabbbb\n    c");
}

#[test]
fn text_after_a_group_counts_against_its_width() {
    let document = Command::Commands(vec![
        Command::Group(vec![text("aaaa"), Command::LineOrSpace, text("bbbb")]),
        text("cc"),
    ]);
    assert_eq!(printed(&document, 11, 4), "aaaa bbbbcc");
    assert_eq!(printed(&document, 10, 4), "aaaa\nbbbbcc");
}

#[test]
fn text_after_a_forced_break_does_not_count() {
    let document = Command::Commands(vec![
        Command::Group(vec![text("aaaa"), Command::LineOrSpace, text("bbbb")]),
        Command::HardLine,
        text("cccccccccccc"),
    ]);
    assert_eq!(printed(&document, 9, 4), "aaaa bbbb\ncccccccccccc");
}

#[test]
fn group_past_the_width_is_broken() {
    let document = Command::Commands(vec![
        text("0123456789ab"),
        Command::Group(vec![Command::Line, text("c")]),
    ]);
    assert_eq!(printed(&document, 10, 4), "0123456789ab\nc");
}

#[test]
fn spaces_before_a_line_break_are_dropped() {
    let document = Command::Commands(vec![
        Command::Indent,
        text("a"),
        Command::HardLine,
        Command::HardLine,
        text("b"),
        Command::Group(vec![Command::LineOrSpace]),
        Command::HardLine,
        text("c"),
    ]);
    assert_eq!(printed(&document, 80, 4), "a\n\n    b\n    c");
}

#[test]
fn spaces_at_the_end_of_the_text_stay() {
    let document = Command::Commands(vec![
        Command::Indent,
        text("a"),
        Command::HardLine,
    ]);
    assert_eq!(printed(&document, 80, 3), "a\n   ");
}

#[test]
fn indentation_after_a_blank_line_waits_for_the_text() {
    let document = Command::Commands(vec![
        Command::Indent,
        text("a"),
        Command::EmptyLine,
        Command::Indent,
        text("b"),
    ]);
    assert_eq!(printed(&document, 80, 2), "a\n\n    b");
}

#[test]
fn printing_twice_gives_the_same_text() {
    let first = printed(&call(), 10, 4);
    let second = printed(&call(), 10, 4);
    assert_eq!(first, second);
    let document = call();
    assert_eq!(printed(&document, 20, 4), printed(&document, 20, 4));
}

#[test]
fn zero_max_width_is_turned_down() {
    assert_eq!(print(&call(), 0, 4), Err(ConfigError::ZeroMaxWidth));
}

#[test]
fn zero_indent_width_is_turned_down() {
    assert_eq!(print(&call(), 80, 0), Err(ConfigError::ZeroIndentWidth));
}

#[test]
fn zero_max_width_is_reported_first() {
    assert_eq!(print(&call(), 0, 0), Err(ConfigError::ZeroMaxWidth));
    assert!(matches!(Config::new(0, 0, vec![10]), Err(ConfigError::ZeroMaxWidth)));
    assert!(matches!(Config::new(1, 0, vec![10]), Err(ConfigError::ZeroIndentWidth)));
}

#[test]
fn valid_configuration_keeps_its_values() {
    let config = Config::new(80, 4, b"\r\n".to_vec()).ok().unwrap();
    assert_eq!(config.max_width(), 80);
    assert_eq!(config.indent_width(), 4);
    assert_eq!(config.newline(), &b"\r\n".to_vec());
}

#[test]
fn configured_line_terminator_is_used_for_every_break() {
    let config = Config::new(10, 2, b"\r\n".to_vec()).ok().unwrap();
    let document = Command::Commands(vec![call(), Command::EmptyLine, text("x")]);
    let out = String::from_utf8(print_with(&document, &config)).unwrap();
    assert_eq!(out, "foo(\r\n  bar,\r\n  baz\r\n)\r\n\r\nx");
}

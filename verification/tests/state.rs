use pxp_formatter::command::Command;
use pxp_formatter::config::Config;
use pxp_formatter::layout::Mode;
use pxp_formatter::printer::PrinterState;

fn config(max_width: usize, indent_width: usize) -> Config {
    Config::new(max_width, indent_width, b"\n".to_vec()).ok().unwrap()
}

fn text(s: &str) -> Command {
    Command::Text(s.as_bytes().to_vec())
}

#[test]
fn new_state_has_written_nothing() {
    assert!(PrinterState::new().finish().is_empty());
}

#[test]
fn steps_can_be_taken_one_by_one() {
    let cfg = config(80, 2);
    let mut state = PrinterState::new();
    state.write_text(&b"a".to_vec(), &cfg);
    state.indent();
    state.indent();
    state.break_line(&cfg);
    state.write_text(&b"b".to_vec(), &cfg);
    state.write_space();
    state.write_text(&b"c".to_vec(), &cfg);
    state.write_space();
    state.unindent();
    state.blank_line(&cfg);
    state.write_text(&Vec::new(), &cfg);
    state.write_text(&b"d".to_vec(), &cfg);
    state.unindent();
    state.unindent();
    state.break_line(&cfg);
    state.write_text(&b"e".to_vec(), &cfg);
    assert_eq!(state.finish(), b"a\n    b c\n\n  d\ne".to_vec());
}

#[test]
fn group_mode_depends_on_what_follows_in_its_list() {
    let cfg = config(6, 2);
    let items = vec![text("aa"), Command::LineOrSpace, text("bb")];
    let siblings = vec![Command::Line, text("cc"), Command::HardLine, text("dddddddd")];
    let at_start = PrinterState::new();
    assert_eq!(at_start.resolve(&items, &siblings, 2, &cfg), Mode::Flat);
    assert_eq!(at_start.resolve(&items, &siblings, 1, &cfg), Mode::Break);
    assert_eq!(at_start.resolve(&items, &siblings, 4, &cfg), Mode::Flat);
    let mut moved = PrinterState::new();
    moved.write_text(&b"xx".to_vec(), &cfg);
    assert_eq!(moved.resolve(&items, &siblings, 4, &cfg), Mode::Break);
    let forced = vec![text("a"), Command::Group(vec![Command::HardLine])];
    assert_eq!(at_start.resolve(&forced, &siblings, 4, &cfg), Mode::Break);
}

#[test]
fn node_is_printed_with_the_rest_of_its_list_in_view() {
    let cfg = config(6, 2);
    let list = vec![
        Command::Group(vec![text("aa"), Command::LineOrSpace, text("bb")]),
        text("cc"),
    ];
    let mut state = PrinterState::new();
    state.print_node(&list[0], Mode::Break, &list, 1, &cfg);
    assert_eq!(state.finish(), b"aa\nbb".to_vec());
    let mut alone = PrinterState::new();
    alone.print_node(&list[0], Mode::Break, &list, 2, &cfg);
    assert_eq!(alone.finish(), b"aa bb".to_vec());
    let mut whole = PrinterState::new();
    whole.print_all(&list, Mode::Flat, &cfg);
    assert_eq!(whole.finish(), b"aa\nbbcc".to_vec());
}

//! What holds of every document and every configuration.

use vstd::prelude::*;
use crate::command::{Command, Doc};
use crate::config::Settings;
use crate::layout::{group_mode, printed, render, render_all, spaces, Layout, Mode, SPACE};
use crate::measure::{
    any_forced_break,
    fits_in,
    flat_width,
    flat_width_all,
    has_forced_break,
    lemma_flat_width_concat,
};

verus! {

/// Whether `doc` is made of texts alone, bare or gathered in runs and groups.
pub open spec fn only_text(doc: Doc) -> bool
    decreases doc,
{
    match doc {
        Doc::Text(_) => true,
        Doc::Commands(list) | Doc::Group(list) => all_only_text(list),
        _ => false,
    }
}

/// Whether every command of `list` is made of texts alone.
pub open spec fn all_only_text(list: Seq<Doc>) -> bool
    decreases list,
{
    list.len() == 0 || (only_text(list[0]) && all_only_text(list.drop_first()))
}

/// The texts of `doc`, joined in document order.
pub open spec fn text_of(doc: Doc) -> Seq<u8>
    decreases doc,
{
    match doc {
        Doc::Text(bytes) => bytes,
        Doc::Commands(list) | Doc::Group(list) => text_of_all(list),
        _ => Seq::empty(),
    }
}

/// The texts of the commands of `list`, joined in document order.
pub open spec fn text_of_all(list: Seq<Doc>) -> Seq<u8>
    decreases list,
{
    if list.len() == 0 {
        Seq::empty()
    } else {
        text_of(list[0]) + text_of_all(list.drop_first())
    }
}

/// Printing a command made of texts alone, on a line that waits for no
/// indentation, appends its texts and moves the column by their length.
pub proof fn lemma_render_only_text(doc: Doc, mode: Mode, after: Seq<Doc>, st: Layout, cfg: Settings)
    requires
        only_text(doc),
        !st.owed,
    ensures
        render(doc, mode, after, st, cfg).out == st.out + text_of(doc),
        render(doc, mode, after, st, cfg).column == st.column + text_of(doc).len(),
        render(doc, mode, after, st, cfg).depth == st.depth,
        !render(doc, mode, after, st, cfg).owed,
    decreases doc,
{
    match doc {
        Doc::Text(bytes) => {
            assert(st.out + spaces(0) + bytes =~= st.out + bytes);
            assert(st.out + Seq::<u8>::empty() =~= st.out);
        },
        Doc::Commands(list) => {
            lemma_render_all_only_text(list, mode, st, cfg);
        },
        Doc::Group(list) => {
            lemma_render_all_only_text(
                list,
                group_mode(list, after, st.column, cfg.max_width),
                st,
                cfg,
            );
        },
        _ => {},
    }
}

/// Printing a run of commands made of texts alone, on a line that waits for no
/// indentation, appends their texts and moves the column by their length.
pub proof fn lemma_render_all_only_text(list: Seq<Doc>, mode: Mode, st: Layout, cfg: Settings)
    requires
        all_only_text(list),
        !st.owed,
    ensures
        render_all(list, mode, st, cfg).out == st.out + text_of_all(list),
        render_all(list, mode, st, cfg).column == st.column + text_of_all(list).len(),
        render_all(list, mode, st, cfg).depth == st.depth,
        !render_all(list, mode, st, cfg).owed,
    decreases list,
{
    if list.len() == 0 {
        assert(st.out + Seq::<u8>::empty() =~= st.out);
    } else {
        let rest = list.drop_first();
        let next = render(list[0], mode, rest, st, cfg);
        lemma_render_only_text(list[0], mode, rest, st, cfg);
        lemma_render_all_only_text(rest, mode, next, cfg);
        assert(st.out + text_of(list[0]) + text_of_all(rest) =~= st.out + (text_of(list[0])
            + text_of_all(rest)));
    }
}

/// A document made of texts alone prints as its texts, joined in document
/// order, whatever the configuration.
pub proof fn lemma_only_text_prints_its_text(doc: Doc, cfg: Settings)
    requires
        only_text(doc),
    ensures
        printed(doc, cfg) == text_of(doc),
{
    lemma_render_only_text(doc, Mode::Break, Seq::empty(), Layout::start(), cfg);
    assert(Seq::<u8>::empty() + text_of(doc) =~= text_of(doc));
}

/// A group that holds no forced break and that fits, together with what follows
/// it up to the next forced break, into the columns that are left, is laid out
/// flat.
pub proof fn lemma_fitting_group_is_flat(
    items: Seq<Doc>,
    mode: Mode,
    after: Seq<Doc>,
    st: Layout,
    cfg: Settings,
)
    requires
        !any_forced_break(items),
        fits_in(items + after, cfg.max_width - st.column),
    ensures
        group_mode(items, after, st.column, cfg.max_width) == Mode::Flat,
        render(Doc::Group(items), mode, after, st, cfg) == render_all(items, Mode::Flat, st, cfg),
{
}

/// The text of `doc` laid out flat: texts as they are, a space for each
/// line-or-space, nothing for anything else.
pub open spec fn flat_text(doc: Doc) -> Seq<u8>
    decreases doc,
{
    match doc {
        Doc::Text(bytes) => bytes,
        Doc::LineOrSpace => seq![SPACE],
        Doc::Commands(list) | Doc::Group(list) => flat_text_all(list),
        _ => Seq::empty(),
    }
}

/// The text of the commands of `list` laid out flat, joined in order.
pub open spec fn flat_text_all(list: Seq<Doc>) -> Seq<u8>
    decreases list,
{
    if list.len() == 0 {
        Seq::empty()
    } else {
        flat_text(list[0]) + flat_text_all(list.drop_first())
    }
}

/// A command without forced break, printed flat where it fits together with
/// what follows it, on a line that waits for no indentation, appends its flat
/// text: every group inside it fits too and is laid out flat.
pub proof fn lemma_render_flat(doc: Doc, mode: Mode, after: Seq<Doc>, st: Layout, cfg: Settings)
    requires
        !has_forced_break(doc),
        !st.owed,
        mode == Mode::Flat || doc is Group,
        st.column + flat_width(doc) + flat_width_all(after) <= cfg.max_width,
    ensures
        render(doc, mode, after, st, cfg).out == st.out + flat_text(doc),
        render(doc, mode, after, st, cfg).column == st.column + flat_width(doc),
        !render(doc, mode, after, st, cfg).owed,
    decreases doc,
{
    match doc {
        Doc::Text(bytes) => {
            assert(st.out + spaces(0) + bytes =~= st.out + bytes);
            assert(st.out + Seq::<u8>::empty() =~= st.out);
        },
        Doc::LineOrSpace => {
            assert(st.out.push(SPACE) =~= st.out + seq![SPACE]);
        },
        Doc::Commands(list) => {
            lemma_render_all_flat(list, flat_width_all(after), st, cfg);
        },
        Doc::Group(list) => {
            lemma_flat_width_concat(list, after);
            lemma_render_all_flat(list, flat_width_all(after), st, cfg);
        },
        _ => {
            assert(st.out + Seq::<u8>::empty() =~= st.out);
        },
    }
}

/// A run of commands without forced break, printed flat where it fits with
/// `slack` columns to spare, on a line that waits for no indentation, appends
/// its flat text.
pub proof fn lemma_render_all_flat(list: Seq<Doc>, slack: nat, st: Layout, cfg: Settings)
    requires
        !any_forced_break(list),
        !st.owed,
        st.column + flat_width_all(list) + slack <= cfg.max_width,
    ensures
        render_all(list, Mode::Flat, st, cfg).out == st.out + flat_text_all(list),
        render_all(list, Mode::Flat, st, cfg).column == st.column + flat_width_all(list),
        !render_all(list, Mode::Flat, st, cfg).owed,
    decreases list,
{
    if list.len() == 0 {
        assert(st.out + Seq::<u8>::empty() =~= st.out);
    } else {
        let rest = list.drop_first();
        let next = render(list[0], Mode::Flat, rest, st, cfg);
        lemma_render_flat(list[0], Mode::Flat, rest, st, cfg);
        lemma_render_all_flat(rest, slack, next, cfg);
        assert(st.out + flat_text(list[0]) + flat_text_all(rest) =~= st.out + (flat_text(list[0])
            + flat_text_all(rest)));
    }
}

/// A group that holds no forced break and that fits, together with what follows
/// it up to the next forced break, into the columns that are left, is written
/// on the current line, on a line that waits for no indentation: its flat text
/// is appended, and the column moves by its flat width.
pub proof fn lemma_fitting_group_prints_flat(
    items: Seq<Doc>,
    mode: Mode,
    after: Seq<Doc>,
    st: Layout,
    cfg: Settings,
)
    requires
        !any_forced_break(items),
        fits_in(items + after, cfg.max_width - st.column),
        !st.owed,
    ensures
        render(Doc::Group(items), mode, after, st, cfg).out == st.out + flat_text_all(items),
        render(Doc::Group(items), mode, after, st, cfg).column == st.column + flat_width_all(
            items,
        ),
{
    lemma_flat_width_concat(items, after);
    lemma_render_flat(Doc::Group(items), mode, after, st, cfg);
}

/// A group that holds a forced break, at any depth, is laid out broken,
/// whatever the width, the column and what follows it.
pub proof fn lemma_forced_break_group_is_broken(
    items: Seq<Doc>,
    mode: Mode,
    after: Seq<Doc>,
    st: Layout,
    cfg: Settings,
)
    requires
        any_forced_break(items),
    ensures
        group_mode(items, after, st.column, cfg.max_width) == Mode::Break,
        render(Doc::Group(items), mode, after, st, cfg) == render_all(items, Mode::Break, st, cfg),
{
}

/// A group resolves its mode by itself: the mode of its context plays no part.
pub proof fn lemma_group_ignores_outer_mode(
    items: Seq<Doc>,
    after: Seq<Doc>,
    st: Layout,
    cfg: Settings,
)
    ensures
        render(Doc::Group(items), Mode::Flat, after, st, cfg) == render(
            Doc::Group(items),
            Mode::Break,
            after,
            st,
            cfg,
        ),
{
}

/// `n` indents in a row.
pub open spec fn indents(n: nat) -> Seq<Doc> {
    Seq::new(n, |i: int| Doc::Indent)
}

/// Whether `doc` is taken as a line break in `mode`.
pub open spec fn breaks_in(doc: Doc, mode: Mode) -> bool {
    match doc {
        Doc::HardLine => true,
        Doc::Line | Doc::LineOrSpace => mode == Mode::Break,
        _ => false,
    }
}

/// `n` indents in a row raise the depth by `n` and change nothing else.
pub proof fn lemma_indents_raise_depth(n: nat, mode: Mode, st: Layout, cfg: Settings)
    ensures
        render_all(indents(n), mode, st, cfg) == (Layout { depth: st.depth + n, ..st }),
    decreases n,
{
    let list = indents(n);
    if n > 0 {
        let rest = list.drop_first();
        let next = render(list[0], mode, rest, st, cfg);
        assert(list[0] == Doc::Indent);
        assert(rest =~= indents((n - 1) as nat));
        assert(render_all(list, mode, st, cfg) == render_all(rest, mode, next, cfg));
        lemma_indents_raise_depth((n - 1) as nat, mode, next, cfg);
    }
}

/// A line break taken at depth `d` starts the new line with exactly
/// `d * indent_width` spaces: the line terminator follows what was written
/// before, and the spaces follow the line terminator.
pub proof fn lemma_break_indents_by_depth(
    doc: Doc,
    mode: Mode,
    after: Seq<Doc>,
    st: Layout,
    cfg: Settings,
)
    requires
        breaks_in(doc, mode),
    ensures
        render(doc, mode, after, st, cfg).out == st.trimmed() + cfg.newline + spaces(
            st.depth * cfg.indent_width,
        ),
        render(doc, mode, after, st, cfg).column == st.depth * cfg.indent_width,
        render(doc, mode, after, st, cfg).depth == st.depth,
{
}

/// After `n` nested indents, a line break starts the new line with exactly
/// `n * indent_width` spaces more than it would have had before them, and a
/// text that follows the break is written right after these spaces.
pub proof fn lemma_nested_indents_indent_breaks(
    n: nat,
    doc: Doc,
    bytes: Seq<u8>,
    mode: Mode,
    st: Layout,
    cfg: Settings,
)
    requires
        breaks_in(doc, mode),
    ensures
        render_all(indents(n).push(doc).push(Doc::Text(bytes)), mode, st, cfg).out == st.trimmed()
            + cfg.newline + spaces((st.depth + n) * cfg.indent_width) + bytes,
    decreases n,
{
    let list = indents(n).push(doc).push(Doc::Text(bytes));
    let rest = list.drop_first();
    let next = render(list[0], mode, rest, st, cfg);
    assert(render_all(list, mode, st, cfg) == render_all(rest, mode, next, cfg));
    if n == 0 {
        let empty = Seq::<Doc>::empty();
        assert(list[0] == doc);
        assert(next == st.break_line(cfg));
        assert(rest =~= seq![Doc::Text(bytes)]);
        assert(rest[0] == Doc::Text(bytes));
        assert(rest.drop_first() =~= empty);
        let last = render(rest[0], mode, empty, next, cfg);
        assert(render_all(rest, mode, next, cfg) == render_all(empty, mode, last, cfg));
        assert(render_all(empty, mode, last, cfg) == last);
        assert(last == next.write_text(bytes, cfg));
        assert(next.out + spaces(0) + bytes =~= next.out + bytes);
    } else {
        assert(list[0] == Doc::Indent);
        assert(next == st.indent());
        assert(rest =~= indents((n - 1) as nat).push(doc).push(Doc::Text(bytes)));
        lemma_nested_indents_indent_breaks((n - 1) as nat, doc, bytes, mode, next, cfg);
        assert(next.trimmed() == st.trimmed());
        assert(next.depth + (n - 1) as nat == st.depth + n);
    }
}

/// An unindent at depth zero changes nothing; at any other depth it lowers the
/// depth by one. The text written is never touched.
pub proof fn lemma_unindent_clamps(mode: Mode, after: Seq<Doc>, st: Layout, cfg: Settings)
    ensures
        st.depth == 0 ==> render(Doc::Unindent, mode, after, st, cfg) == st,
        st.depth > 0 ==> render(Doc::Unindent, mode, after, st, cfg).depth == st.depth - 1,
        render(Doc::Unindent, mode, after, st, cfg).out == st.out,
        render(Doc::Unindent, mode, after, st, cfg).column == st.column,
{
}

/// An empty line writes the line terminator twice, right after the text of the
/// current line, with no space between the two: the blank line is empty, in
/// either mode and at any depth. The column goes back to zero.
pub proof fn lemma_empty_line_is_blank(mode: Mode, after: Seq<Doc>, st: Layout, cfg: Settings)
    ensures
        render(Doc::EmptyLine, mode, after, st, cfg).out == st.trimmed() + cfg.newline
            + cfg.newline,
        render(Doc::EmptyLine, mode, after, st, cfg).column == 0,
        render(Doc::EmptyLine, mode, after, st, cfg).trailing == 0,
{
}

/// Printing is a function of the document's content and of the configuration's
/// content: two documents with the same content, printed with configurations of
/// the same content, give the same text.
pub proof fn lemma_print_is_deterministic(
    first: Command,
    second: Command,
    first_cfg: Settings,
    second_cfg: Settings,
)
    requires
        first@ == second@,
        first_cfg == second_cfg,
    ensures
        printed(first@, first_cfg) == printed(second@, second_cfg),
{
}

} // verus!

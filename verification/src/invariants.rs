//! What every step of the printer keeps: text once written stays, and no line
//! terminator is written after a space of the printer's own making.

use vstd::prelude::*;
use crate::command::Doc;
use crate::config::Settings;
use crate::layout::{group_mode, render, render_all, Layout, Mode, SPACE};

verus! {

/// Whether `text` is empty or ends with something else than a space.
pub open spec fn ends_clean(text: Seq<u8>) -> bool {
    text.len() == 0 || text.last() != SPACE
}

/// Whether no text of `doc` ends with a space.
pub open spec fn clean(doc: Doc) -> bool
    decreases doc,
{
    match doc {
        Doc::Text(bytes) => ends_clean(bytes),
        Doc::Commands(list) | Doc::Group(list) => all_clean(list),
        _ => true,
    }
}

/// Whether no text of a command of `list` ends with a space.
pub open spec fn all_clean(list: Seq<Doc>) -> bool
    decreases list,
{
    list.len() == 0 || (clean(list[0]) && all_clean(list.drop_first()))
}

/// Whether the text written so far, without the spaces of the printer's own
/// making that end it, is empty or ends with something else than a space.
pub open spec fn tidy(st: Layout) -> bool {
    st.wf() && ends_clean(st.trimmed())
}

/// Printing a command keeps the state well formed and takes nothing back: the
/// text written before, without the spaces that end it, starts the text written
/// after, without the spaces that end it.
pub proof fn lemma_render_extends(doc: Doc, mode: Mode, after: Seq<Doc>, st: Layout, cfg: Settings)
    requires
        st.wf(),
    ensures
        render(doc, mode, after, st, cfg).wf(),
        st.trimmed().is_prefix_of(render(doc, mode, after, st, cfg).trimmed()),
    decreases doc,
{
    match doc {
        Doc::Commands(list) => {
            lemma_render_all_extends(list, mode, st, cfg);
        },
        Doc::Group(list) => {
            lemma_render_all_extends(
                list,
                group_mode(list, after, st.column, cfg.max_width),
                st,
                cfg,
            );
        },
        _ => {},
    }
}

/// Printing a run of commands keeps the state well formed and takes nothing
/// back.
pub proof fn lemma_render_all_extends(list: Seq<Doc>, mode: Mode, st: Layout, cfg: Settings)
    requires
        st.wf(),
    ensures
        render_all(list, mode, st, cfg).wf(),
        st.trimmed().is_prefix_of(render_all(list, mode, st, cfg).trimmed()),
    decreases list,
{
    if list.len() > 0 {
        let rest = list.drop_first();
        let next = render(list[0], mode, rest, st, cfg);
        lemma_render_extends(list[0], mode, rest, st, cfg);
        lemma_render_all_extends(rest, mode, next, cfg);
    }
}

/// Every line terminator is written right after `trimmed()`. Where no text of
/// the document and not the line terminator itself ends with a space, that
/// text never ends with a space: no line gets trailing spaces.
pub proof fn lemma_render_keeps_tidy(
    doc: Doc,
    mode: Mode,
    after: Seq<Doc>,
    st: Layout,
    cfg: Settings,
)
    requires
        tidy(st),
        clean(doc),
        ends_clean(cfg.newline),
    ensures
        tidy(render(doc, mode, after, st, cfg)),
    decreases doc,
{
    lemma_render_extends(doc, mode, after, st, cfg);
    match doc {
        Doc::Commands(list) => {
            lemma_render_all_keeps_tidy(list, mode, st, cfg);
        },
        Doc::Group(list) => {
            lemma_render_all_keeps_tidy(
                list,
                group_mode(list, after, st.column, cfg.max_width),
                st,
                cfg,
            );
        },
        _ => {},
    }
}

/// A run of commands keeps the text tidy as each of its commands does.
pub proof fn lemma_render_all_keeps_tidy(list: Seq<Doc>, mode: Mode, st: Layout, cfg: Settings)
    requires
        tidy(st),
        all_clean(list),
        ends_clean(cfg.newline),
    ensures
        tidy(render_all(list, mode, st, cfg)),
    decreases list,
{
    if list.len() > 0 {
        let rest = list.drop_first();
        let next = render(list[0], mode, rest, st, cfg);
        lemma_render_keeps_tidy(list[0], mode, rest, st, cfg);
        lemma_render_all_keeps_tidy(rest, mode, next, cfg);
    }
}

/// Printing a whole document keeps every line tidy, from the first byte on:
/// where no text of the document and not the line terminator itself ends with
/// a space, no line terminator of the printed text follows a space that the
/// printer made.
pub proof fn lemma_print_keeps_tidy(doc: Doc, cfg: Settings)
    requires
        clean(doc),
        ends_clean(cfg.newline),
    ensures
        tidy(render(doc, Mode::Break, Seq::empty(), Layout::start(), cfg)),
{
    lemma_render_keeps_tidy(doc, Mode::Break, Seq::empty(), Layout::start(), cfg);
}

} // verus!

//! The fits check: how wide a run of commands is when laid out flat, and
//! whether that width stays within a budget.

use vstd::prelude::*;
use crate::command::{Command, Doc, view_all};

verus! {

/// Whether `doc` holds a break that is always taken, at any depth.
pub open spec fn has_forced_break(doc: Doc) -> bool
    decreases doc,
{
    match doc {
        Doc::HardLine | Doc::EmptyLine => true,
        Doc::Commands(list) | Doc::Group(list) => any_forced_break(list),
        _ => false,
    }
}

/// Whether some command of `list` holds a break that is always taken.
pub open spec fn any_forced_break(list: Seq<Doc>) -> bool
    decreases list,
{
    list.len() > 0 && (has_forced_break(list[0]) || any_forced_break(list.drop_first()))
}

/// The width of `doc` laid out flat, up to its first forced break: a text counts
/// its length, a line-or-space counts one, and every group inside is taken flat.
pub open spec fn flat_width(doc: Doc) -> nat
    decreases doc,
{
    match doc {
        Doc::Text(bytes) => bytes.len(),
        Doc::LineOrSpace => 1,
        Doc::Commands(list) | Doc::Group(list) => flat_width_all(list),
        _ => 0,
    }
}

/// The width of `list` laid out flat, up to its first forced break.
pub open spec fn flat_width_all(list: Seq<Doc>) -> nat
    decreases list,
{
    if list.len() == 0 {
        0
    } else if has_forced_break(list[0]) {
        flat_width(list[0])
    } else {
        flat_width(list[0]) + flat_width_all(list.drop_first())
    }
}

/// Whether `content`, laid out flat up to its first forced break, stays within
/// `remaining` columns. Nothing fits in a negative width.
pub open spec fn fits_in(content: Seq<Doc>, remaining: int) -> bool {
    flat_width_all(content) <= remaining
}

/// How a flat scan over a run of commands ended.
pub enum Scan {
    /// The run was laid out to its end; so many columns of the budget are left.
    Room(usize),
    /// A forced break ended the line within the budget.
    Ended,
    /// The width went over the budget.
    Over,
}

/// The outcome of a scan that met `width` columns of flat content, and a forced
/// break or none (`broke`), with `budget` columns to spend.
pub open spec fn outcome(width: nat, broke: bool, budget: usize) -> Scan {
    if width > budget {
        Scan::Over
    } else if broke {
        Scan::Ended
    } else {
        Scan::Room((budget - width) as usize)
    }
}

/// A scan of a run is the scan of its first command, carried on over the rest
/// with what the first command left of the budget.
proof fn lemma_scan_step(list: Seq<Doc>, budget: usize)
    requires
        list.len() > 0,
    ensures
        match outcome(flat_width(list[0]), has_forced_break(list[0]), budget) {
            Scan::Room(left) => outcome(flat_width_all(list), any_forced_break(list), budget)
                == outcome(
                flat_width_all(list.drop_first()),
                any_forced_break(list.drop_first()),
                left,
            ),
            first => outcome(flat_width_all(list), any_forced_break(list), budget) == first,
        },
{
}

/// The flat width of a run followed by another: the second run counts only
/// where no forced break of the first ends the line before it.
pub proof fn lemma_flat_width_concat(first: Seq<Doc>, second: Seq<Doc>)
    ensures
        flat_width_all(first + second) == if any_forced_break(first) {
            flat_width_all(first)
        } else {
            flat_width_all(first) + flat_width_all(second)
        },
    decreases first.len(),
{
    if first.len() == 0 {
        assert(first + second =~= second);
    } else {
        assert((first + second).drop_first() =~= first.drop_first() + second);
        lemma_flat_width_concat(first.drop_first(), second);
    }
}

/// Scans one command, stopping at the first forced break or as soon as the
/// budget is spent.
pub fn scan(doc: &Command, budget: usize) -> (r: Scan)
    ensures
        r == outcome(flat_width(doc@), has_forced_break(doc@), budget),
    decreases doc,
{
    match doc {
        Command::Text(bytes) => {
            if bytes.len() > budget {
                Scan::Over
            } else {
                Scan::Room(budget - bytes.len())
            }
        },
        Command::LineOrSpace => {
            if budget == 0 {
                Scan::Over
            } else {
                Scan::Room(budget - 1)
            }
        },
        Command::Commands(list) => {
            proof {
                assert(view_all(list@).skip(0) =~= view_all(list@));
            }
            scan_all(list, 0, budget)
        },
        Command::Group(list) => {
            proof {
                assert(view_all(list@).skip(0) =~= view_all(list@));
            }
            scan_all(list, 0, budget)
        },
        Command::HardLine => Scan::Ended,
        Command::EmptyLine => Scan::Ended,
        Command::Line => Scan::Room(budget),
        Command::Indent => Scan::Room(budget),
        Command::Unindent => Scan::Room(budget),
    }
}

/// Scans `list` from position `from` on, stopping at the first forced break or
/// as soon as the budget is spent.
pub fn scan_all(list: &Vec<Command>, from: usize, budget: usize) -> (r: Scan)
    requires
        from <= list.len(),
    ensures
        r == outcome(
            flat_width_all(view_all(list@).skip(from as int)),
            any_forced_break(view_all(list@).skip(from as int)),
            budget,
        ),
    decreases list,
{
    let ghost docs = view_all(list@);
    let ghost goal = outcome(
        flat_width_all(docs.skip(from as int)),
        any_forced_break(docs.skip(from as int)),
        budget,
    );
    let mut left = budget;
    let mut i = from;
    while i < list.len()
        invariant
            from <= i <= list.len(),
            docs == view_all(list@),
            goal == outcome(
                flat_width_all(docs.skip(from as int)),
                any_forced_break(docs.skip(from as int)),
                budget,
            ),
            goal == outcome(
                flat_width_all(docs.skip(i as int)),
                any_forced_break(docs.skip(i as int)),
                left,
            ),
        decreases list.len() - i,
    {
        proof {
            assert(docs.skip(i as int).drop_first() =~= docs.skip(i + 1));
            lemma_scan_step(docs.skip(i as int), left);
        }
        match scan(&list[i], left) {
            Scan::Over => {
                return Scan::Over;
            },
            Scan::Ended => {
                return Scan::Ended;
            },
            Scan::Room(rest) => {
                left = rest;
            },
        }
        i += 1;
    }
    Scan::Room(left)
}

/// The fits check: whether `content`, with every group in it taken flat, stays
/// within `remaining_width` columns up to its first forced break.
pub fn fits(content: &Vec<Command>, remaining_width: usize) -> (r: bool)
    ensures
        r == fits_in(view_all(content@), remaining_width as int),
{
    proof {
        assert(view_all(content@).skip(0) =~= view_all(content@));
    }
    match scan_all(content, 0, remaining_width) {
        Scan::Over => false,
        _ => true,
    }
}

} // verus!

//! The layout rules as mathematics: what the printer's state is, and how each
//! command changes it.

use vstd::prelude::*;
use crate::command::Doc;
use crate::config::Settings;
use crate::measure::{any_forced_break, fits_in};

verus! {

/// The byte of a space.
pub const SPACE: u8 = 32u8;

/// How the soft breaks of a group are laid out.
#[derive(Debug, Clone, Copy, PartialEq, Eq)]
pub enum Mode {
    /// Soft breaks collapse: a line becomes nothing, a line-or-space one space.
    Flat,
    /// Soft breaks become line breaks.
    Break,
}

/// `n` spaces.
pub open spec fn spaces(n: nat) -> Seq<u8> {
    Seq::new(n, |i: int| SPACE)
}

/// The printer's state between two commands.
pub ghost struct Layout {
    /// The text written so far.
    pub out: Seq<u8>,
    /// The column that the next byte goes to.
    pub column: nat,
    /// The indentation depth: the number of indents that are open.
    pub depth: nat,
    /// How many spaces of the printer's own making end `out`: indentation and
    /// flat spaces that no text has followed yet.
    pub trailing: nat,
    /// Whether the current line still waits for its indentation, as it does
    /// after a blank line.
    pub owed: bool,
}

impl Layout {
    /// The state before anything is printed.
    pub open spec fn start() -> Layout {
        Layout { out: Seq::empty(), column: 0, depth: 0, trailing: 0, owed: false }
    }

    /// The trailing spaces do not outnumber the text written.
    pub open spec fn wf(self) -> bool {
        self.trailing <= self.out.len()
    }

    /// The text written so far without the spaces that end it.
    pub open spec fn trimmed(self) -> Seq<u8> {
        self.out.take(self.out.len() - self.trailing)
    }

    /// The width of the indentation at the current depth.
    pub open spec fn indentation(self, cfg: Settings) -> nat {
        self.depth * cfg.indent_width
    }

    /// Writes a text. An empty text changes nothing. Any other text is written
    /// as it is, after the indentation where the line still waits for it.
    pub open spec fn write_text(self, bytes: Seq<u8>, cfg: Settings) -> Layout {
        if bytes.len() == 0 {
            self
        } else {
            let pad = if self.owed {
                self.indentation(cfg)
            } else {
                0
            };
            Layout {
                out: self.out + spaces(pad) + bytes,
                column: self.column + pad + bytes.len(),
                depth: self.depth,
                trailing: 0,
                owed: false,
            }
        }
    }

    /// Writes the space of a flat line-or-space.
    pub open spec fn write_space(self) -> Layout {
        Layout {
            out: self.out.push(SPACE),
            column: self.column + 1,
            trailing: self.trailing + 1,
            ..self
        }
    }

    /// Takes a line break: the spaces that end the line are dropped, the line
    /// terminator is written, and the new line is indented to the current depth.
    pub open spec fn break_line(self, cfg: Settings) -> Layout {
        Layout {
            out: self.trimmed() + cfg.newline + spaces(self.indentation(cfg)),
            column: self.indentation(cfg),
            depth: self.depth,
            trailing: self.indentation(cfg),
            owed: false,
        }
    }

    /// Writes a blank line: the spaces that end the line are dropped and the
    /// line terminator is written twice. The line after the blank one starts at
    /// column zero and waits for its indentation until a text is written.
    pub open spec fn blank_line(self, cfg: Settings) -> Layout {
        Layout {
            out: self.trimmed() + cfg.newline + cfg.newline,
            column: 0,
            depth: self.depth,
            trailing: 0,
            owed: true,
        }
    }

    /// Opens one more level of indentation.
    pub open spec fn indent(self) -> Layout {
        Layout { depth: self.depth + 1, ..self }
    }

    /// Closes one level of indentation; at depth zero nothing changes.
    pub open spec fn unindent(self) -> Layout {
        Layout {
            depth: if self.depth > 0 {
                (self.depth - 1) as nat
            } else {
                0
            },
            ..self
        }
    }
}

/// The mode of a group with commands `items`, followed in its list by `after`,
/// when the printer stands at `column`: broken if the group holds a forced break;
/// else flat if the group and what follows it, up to the next forced break, fit
/// in the columns that are left; else broken.
pub open spec fn group_mode(items: Seq<Doc>, after: Seq<Doc>, column: nat, max_width: nat) -> Mode {
    if any_forced_break(items) {
        Mode::Break
    } else if fits_in(items + after, max_width - column) {
        Mode::Flat
    } else {
        Mode::Break
    }
}

/// The state after printing `doc` in `mode` from state `st`, where `after` are
/// the commands that follow `doc` in its list.
pub open spec fn render(doc: Doc, mode: Mode, after: Seq<Doc>, st: Layout, cfg: Settings) -> Layout
    decreases doc,
{
    match doc {
        Doc::Text(bytes) => st.write_text(bytes, cfg),
        Doc::Commands(list) => render_all(list, mode, st, cfg),
        Doc::Group(list) => render_all(
            list,
            group_mode(list, after, st.column, cfg.max_width),
            st,
            cfg,
        ),
        Doc::HardLine => st.break_line(cfg),
        Doc::EmptyLine => st.blank_line(cfg),
        Doc::Line => match mode {
            Mode::Flat => st,
            Mode::Break => st.break_line(cfg),
        },
        Doc::LineOrSpace => match mode {
            Mode::Flat => st.write_space(),
            Mode::Break => st.break_line(cfg),
        },
        Doc::Indent => st.indent(),
        Doc::Unindent => st.unindent(),
    }
}

/// The state after printing the commands of `list` in order, each in `mode`.
pub open spec fn render_all(list: Seq<Doc>, mode: Mode, st: Layout, cfg: Settings) -> Layout
    decreases list,
{
    if list.len() == 0 {
        st
    } else {
        render_all(
            list.drop_first(),
            mode,
            render(list[0], mode, list.drop_first(), st, cfg),
            cfg,
        )
    }
}

/// The text that a whole document prints as: it is printed in break mode, from
/// the start state, with nothing after it.
pub open spec fn printed(doc: Doc, cfg: Settings) -> Seq<u8> {
    render(doc, Mode::Break, Seq::empty(), Layout::start(), cfg).out
}

} // verus!

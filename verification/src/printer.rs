//! The printer: one pass over the document that resolves each group's mode and
//! writes the text.

use vstd::prelude::*;
use crate::command::{Command, view_all};
use crate::config::{Config, ConfigError, Settings};
use crate::layout::{group_mode, printed, render, render_all, spaces, Layout, Mode, SPACE};
use crate::measure::{lemma_flat_width_concat, scan_all, Scan};

verus! {

/// The byte of a line feed, the line terminator that [`print`] uses.
pub const LINE_FEED: u8 = 10u8;

/// The state of one print call: the text written so far, the current column
/// and the stack of open indents.
pub struct PrinterState {
    /// The column that the next byte goes to.
    column: usize,
    /// The open indents: each holds the depth that it raised the indentation to.
    indents: Vec<usize>,
    /// The text written so far.
    out: Vec<u8>,
    /// How many spaces of the printer's own making end `out`.
    trailing: usize,
    /// Whether the current line still waits for its indentation.
    owed: bool,
}

impl View for PrinterState {
    type V = Layout;

    closed spec fn view(&self) -> Layout {
        Layout {
            out: self.out@,
            column: self.column as nat,
            depth: self.indents@.len(),
            trailing: self.trailing as nat,
            owed: self.owed,
        }
    }
}

/// Appends `bytes` to `out`.
fn append(out: &mut Vec<u8>, bytes: &Vec<u8>)
    ensures
        final(out)@ == old(out)@ + bytes@,
{
    let ghost before = out@;
    let mut i: usize = 0;
    while i < bytes.len()
        invariant
            i <= bytes.len(),
            out@ == before + bytes@.take(i as int),
        decreases bytes.len() - i,
    {
        out.push(bytes[i]);
        proof {
            assert(bytes@.take(i + 1) =~= bytes@.take(i as int).push(bytes@[i as int]));
        }
        i += 1;
    }
    proof {
        assert(bytes@.take(bytes.len() as int) =~= bytes@);
    }
}

impl PrinterState {
    /// The state keeps its own books: the column and the trailing spaces lie
    /// within the text written, and the stack of indents holds the depths one,
    /// two, three and so on.
    pub closed spec fn wf(&self) -> bool {
        &&& self.column <= self.out@.len()
        &&& self.trailing <= self.out@.len()
        &&& forall|i: int| 0 <= i < self.indents@.len() ==> #[trigger] self.indents@[i] == i + 1
    }

    /// The state before anything is printed.
    pub fn new() -> (state: PrinterState)
        ensures
            state.wf(),
            state@ == Layout::start(),
    {
        PrinterState { column: 0, indents: Vec::new(), out: Vec::new(), trailing: 0, owed: false }
    }

    /// Hands out the text written.
    pub fn finish(self) -> (out: Vec<u8>)
        ensures
            out@ == self@.out,
    {
        self.out
    }

    /// The current indentation depth: the top of the stack of indents, zero
    /// when no indent is open.
    fn depth(&self) -> (d: usize)
        requires
            self.wf(),
        ensures
            d == self@.depth,
    {
        let n = self.indents.len();
        if n == 0 {
            0
        } else {
            self.indents[n - 1]
        }
    }

    /// Writes the indentation of the current depth.
    fn write_indentation(&mut self, cfg: &Config)
        requires
            old(self).wf(),
        ensures
            final(self).wf(),
            final(self)@ == (Layout {
                out: old(self)@.out + spaces(old(self)@.indentation(cfg@)),
                column: old(self)@.column + old(self)@.indentation(cfg@),
                trailing: old(self)@.trailing + old(self)@.indentation(cfg@),
                ..old(self)@
            }),
    {
        let ghost before = self@;
        let depth = self.depth();
        let width = cfg.indent_width();
        let mut level: usize = 0;
        proof {
            assert(before.out + spaces(0) =~= before.out);
        }
        while level < depth
            invariant
                self.wf(),
                level <= depth,
                depth == before.depth,
                width == cfg@.indent_width,
                self@ == (Layout {
                    out: before.out + spaces((level * width) as nat),
                    column: (before.column + level * width) as nat,
                    trailing: (before.trailing + level * width) as nat,
                    ..before
                }),
            decreases depth - level,
        {
            let mut k: usize = 0;
            while k < width
                invariant
                    self.wf(),
                    k <= width,
                    level < depth,
                    self@ == (Layout {
                        out: before.out + spaces((level * width + k) as nat),
                        column: (before.column + level * width + k) as nat,
                        trailing: (before.trailing + level * width + k) as nat,
                        ..before
                    }),
                decreases width - k,
            {
                self.out.push(SPACE);
                assert(self.out@.len() == self.out.len());
                self.column += 1;
                self.trailing += 1;
                proof {
                    assert(before.out + spaces((level * width + k + 1) as nat) =~= (before.out
                        + spaces((level * width + k) as nat)).push(SPACE));
                }
                k += 1;
            }
            proof {
                assert((level + 1) * width == level * width + width) by (nonlinear_arith);
            }
            level += 1;
        }
    }

    /// Drops the spaces that end the text written.
    fn trim(&mut self)
        requires
            old(self).wf(),
        ensures
            final(self).wf(),
            final(self)@ == (Layout {
                out: old(self)@.trimmed(),
                column: 0,
                trailing: 0,
                ..old(self)@
            }),
    {
        let keep = self.out.len() - self.trailing;
        self.out.truncate(keep);
        self.column = 0;
        self.trailing = 0;
    }

    /// Writes a text.
    pub fn write_text(&mut self, bytes: &Vec<u8>, cfg: &Config)
        requires
            old(self).wf(),
        ensures
            final(self).wf(),
            final(self)@ == old(self)@.write_text(bytes@, cfg@),
    {
        if bytes.len() > 0 {
            if self.owed {
                self.write_indentation(cfg);
            }
            proof {
                assert(old(self)@.out + spaces(0) =~= old(self)@.out);
            }
            append(&mut self.out, bytes);
            assert(self.out@.len() == self.out.len());
            self.column += bytes.len();
            self.trailing = 0;
            self.owed = false;
        }
    }

    /// Writes the space of a flat line-or-space.
    pub fn write_space(&mut self)
        requires
            old(self).wf(),
        ensures
            final(self).wf(),
            final(self)@ == old(self)@.write_space(),
    {
        self.out.push(SPACE);
        assert(self.out@.len() == self.out.len());
        self.column += 1;
        self.trailing += 1;
    }

    /// Takes a line break.
    pub fn break_line(&mut self, cfg: &Config)
        requires
            old(self).wf(),
        ensures
            final(self).wf(),
            final(self)@ == old(self)@.break_line(cfg@),
    {
        self.trim();
        append(&mut self.out, cfg.newline());
        self.owed = false;
        self.write_indentation(cfg);
    }

    /// Writes a blank line.
    pub fn blank_line(&mut self, cfg: &Config)
        requires
            old(self).wf(),
        ensures
            final(self).wf(),
            final(self)@ == old(self)@.blank_line(cfg@),
    {
        self.trim();
        append(&mut self.out, cfg.newline());
        append(&mut self.out, cfg.newline());
        self.owed = true;
    }

    /// Opens one more level of indentation: the depth above the current one
    /// goes onto the stack.
    pub fn indent(&mut self)
        requires
            old(self).wf(),
        ensures
            final(self).wf(),
            final(self)@ == old(self)@.indent(),
    {
        let depth = self.indents.len();
        self.indents.push(depth);
        let deeper = self.indents.len();
        self.indents.set(depth, deeper);
    }

    /// Closes one level of indentation: the stack is popped, and left as it is
    /// when it is empty.
    pub fn unindent(&mut self)
        requires
            old(self).wf(),
        ensures
            final(self).wf(),
            final(self)@ == old(self)@.unindent(),
    {
        let _ = self.indents.pop();
    }

    /// Resolves the mode of a group with commands `items`, which stands before
    /// position `next` of the list `siblings`.
    pub fn resolve(
        &self,
        items: &Vec<Command>,
        siblings: &Vec<Command>,
        next: usize,
        cfg: &Config,
    ) -> (mode: Mode)
        requires
            next <= siblings.len(),
        ensures
            mode == group_mode(
                view_all(items@),
                view_all(siblings@).skip(next as int),
                self@.column,
                cfg@.max_width,
            ),
    {
        let max_width = cfg.max_width();
        proof {
            assert(view_all(items@).skip(0) =~= view_all(items@));
            lemma_flat_width_concat(view_all(items@), view_all(siblings@).skip(next as int));
        }
        if self.column > max_width {
            Mode::Break
        } else {
            match scan_all(items, 0, max_width - self.column) {
                Scan::Room(left) => match scan_all(siblings, next, left) {
                    Scan::Over => Mode::Break,
                    _ => Mode::Flat,
                },
                _ => Mode::Break,
            }
        }
    }

    /// Prints one command in `mode`. The command stands before position `next`
    /// of the list `siblings`: what follows it there counts when a group
    /// resolves its mode.
    pub fn print_node(
        &mut self,
        doc: &Command,
        mode: Mode,
        siblings: &Vec<Command>,
        next: usize,
        cfg: &Config,
    )
        requires
            old(self).wf(),
            next <= siblings.len(),
        ensures
            final(self).wf(),
            final(self)@ == render(
                doc@,
                mode,
                view_all(siblings@).skip(next as int),
                old(self)@,
                cfg@,
            ),
        decreases doc,
    {
        match doc {
            Command::Text(bytes) => self.write_text(bytes, cfg),
            Command::Commands(list) => self.print_all(list, mode, cfg),
            Command::Group(list) => {
                let inner = self.resolve(list, siblings, next, cfg);
                self.print_all(list, inner, cfg)
            },
            Command::HardLine => self.break_line(cfg),
            Command::EmptyLine => self.blank_line(cfg),
            Command::Line => match mode {
                Mode::Flat => {},
                Mode::Break => self.break_line(cfg),
            },
            Command::LineOrSpace => match mode {
                Mode::Flat => self.write_space(),
                Mode::Break => self.break_line(cfg),
            },
            Command::Indent => self.indent(),
            Command::Unindent => self.unindent(),
        }
    }

    /// Prints the commands of `list` in order, each in `mode`.
    pub fn print_all(&mut self, list: &Vec<Command>, mode: Mode, cfg: &Config)
        requires
            old(self).wf(),
        ensures
            final(self).wf(),
            final(self)@ == render_all(view_all(list@), mode, old(self)@, cfg@),
        decreases list,
    {
        let ghost before = self@;
        let ghost docs = view_all(list@);
        let mut i: usize = 0;
        proof {
            assert(docs.skip(0) =~= docs);
        }
        while i < list.len()
            invariant
                self.wf(),
                i <= list.len(),
                docs == view_all(list@),
                render_all(docs.skip(i as int), mode, self@, cfg@) == render_all(
                    docs,
                    mode,
                    before,
                    cfg@,
                ),
            decreases list.len() - i,
        {
            proof {
                assert(docs.skip(i as int).drop_first() =~= docs.skip(i + 1));
            }
            self.print_node(&list[i], mode, list, i + 1, cfg);
            i += 1;
        }
    }
}

/// Prints `document` with the given configuration.
pub fn print_with(document: &Command, config: &Config) -> (out: Vec<u8>)
    ensures
        out@ == printed(document@, config@),
{
    let mut state = PrinterState::new();
    let alone: Vec<Command> = Vec::new();
    proof {
        assert(view_all(alone@).skip(0) =~= Seq::empty());
    }
    state.print_node(document, Mode::Break, &alone, 0, config);
    state.finish()
}

/// Prints `document` within `max_width` columns, with `indent_width` spaces per
/// level of indentation and a line feed as the line terminator. A width of zero
/// is turned down before anything is printed, the maximum width first.
pub fn print(document: &Command, max_width: usize, indent_width: usize) -> (r: Result<
    Vec<u8>,
    ConfigError,
>)
    ensures
        match r {
            Ok(out) => max_width > 0 && indent_width > 0 && out@ == printed(
                document@,
                Settings {
                    max_width: max_width as nat,
                    indent_width: indent_width as nat,
                    newline: seq![LINE_FEED],
                },
            ),
            Err(ConfigError::ZeroMaxWidth) => max_width == 0,
            Err(ConfigError::ZeroIndentWidth) => max_width > 0 && indent_width == 0,
        },
{
    let mut newline: Vec<u8> = Vec::new();
    newline.push(LINE_FEED);
    proof {
        assert(newline@ =~= seq![LINE_FEED]);
    }
    match Config::new(max_width, indent_width, newline) {
        Ok(config) => Ok(print_with(document, &config)),
        Err(e) => Err(e),
    }
}

} // verus!

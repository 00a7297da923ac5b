//! The document model: the fixed vocabulary of layout commands.

use vstd::prelude::*;

verus! {

/// One node of a document tree.
#[derive(Debug)]
pub enum Command {
    /// An ordered run of commands, laid out in the mode of its context.
    Commands(Vec<Command>),
    /// Literal bytes, written as they are.
    Text(Vec<u8>),
    /// A run of commands whose soft breaks are resolved together: all flat when
    /// the group fits on the line, all broken when it does not.
    Group(Vec<Command>),
    /// A line break that is always taken.
    HardLine,
    /// A blank line that is always written, without indentation.
    EmptyLine,
    /// A soft break: nothing when flat, a line break when broken.
    Line,
    /// A soft break: one space when flat, a line break when broken.
    LineOrSpace,
    /// Raises the indentation of the breaks that follow by one level.
    Indent,
    /// Lowers the indentation of the breaks that follow by one level.
    Unindent,
}

/// The mathematical content of a [`Command`]: the same tree over sequences.
pub ghost enum Doc {
    Commands(Seq<Doc>),
    Text(Seq<u8>),
    Group(Seq<Doc>),
    HardLine,
    EmptyLine,
    Line,
    LineOrSpace,
    Indent,
    Unindent,
}

impl View for Command {
    type V = Doc;

    open spec fn view(&self) -> Doc
        decreases self,
    {
        match self {
            Command::Commands(list) => Doc::Commands(view_all(list@)),
            Command::Text(bytes) => Doc::Text(bytes@),
            Command::Group(list) => Doc::Group(view_all(list@)),
            Command::HardLine => Doc::HardLine,
            Command::EmptyLine => Doc::EmptyLine,
            Command::Line => Doc::Line,
            Command::LineOrSpace => Doc::LineOrSpace,
            Command::Indent => Doc::Indent,
            Command::Unindent => Doc::Unindent,
        }
    }
}

/// The contents of a list of commands, one by one and in order.
pub open spec fn view_all(list: Seq<Command>) -> Seq<Doc>
    decreases list,
{
    Seq::new(list.len(), |i: int| if 0 <= i < list.len() { list[i]@ } else { Doc::Line })
}

impl Command {
    /// A text.
    pub fn text(content: Vec<u8>) -> (command: Command)
        ensures
            command == Command::Text(content),
            command@ == Doc::Text(content@),
    {
        Command::Text(content)
    }

    /// A run of commands.
    pub fn commands(list: Vec<Command>) -> (command: Command)
        ensures
            command == Command::Commands(list),
            command@ == Doc::Commands(view_all(list@)),
    {
        Command::Commands(list)
    }

    /// A group of commands.
    pub fn group(list: Vec<Command>) -> (command: Command)
        ensures
            command == Command::Group(list),
            command@ == Doc::Group(view_all(list@)),
    {
        Command::Group(list)
    }

    /// A forced line break.
    pub fn hard_line() -> (command: Command)
        ensures
            command == Command::HardLine,
    {
        Command::HardLine
    }

    /// A forced blank line.
    pub fn empty_line() -> (command: Command)
        ensures
            command == Command::EmptyLine,
    {
        Command::EmptyLine
    }

    /// A soft break that is nothing when flat.
    pub fn line() -> (command: Command)
        ensures
            command == Command::Line,
    {
        Command::Line
    }

    /// A soft break that is a space when flat.
    pub fn line_or_space() -> (command: Command)
        ensures
            command == Command::LineOrSpace,
    {
        Command::LineOrSpace
    }

    /// One level of indentation more.
    pub fn indent() -> (command: Command)
        ensures
            command == Command::Indent,
    {
        Command::Indent
    }

    /// One level of indentation less.
    pub fn unindent() -> (command: Command)
        ensures
            command == Command::Unindent,
    {
        Command::Unindent
    }
}

} // verus!

//! The printer's configuration and its validation.

use vstd::prelude::*;

verus! {

/// Why a configuration was turned down.
#[derive(Debug, Clone, Copy, PartialEq, Eq)]
pub enum ConfigError {
    /// The maximum line width was zero.
    ZeroMaxWidth,
    /// The indentation width was zero.
    ZeroIndentWidth,
}

/// The mathematical content of a [`Config`].
pub ghost struct Settings {
    /// The column that a group has to stay within to be laid out flat.
    pub max_width: nat,
    /// The number of spaces that one level of indentation adds.
    pub indent_width: nat,
    /// The line terminator.
    pub newline: Seq<u8>,
}

impl Settings {
    /// Both widths are positive.
    pub open spec fn valid(self) -> bool {
        self.max_width > 0 && self.indent_width > 0
    }
}

/// A validated configuration: both widths are positive.
pub struct Config {
    max_width: usize,
    indent_width: usize,
    newline: Vec<u8>,
}

impl View for Config {
    type V = Settings;

    closed spec fn view(&self) -> Settings {
        Settings {
            max_width: self.max_width as nat,
            indent_width: self.indent_width as nat,
            newline: self.newline@,
        }
    }
}

impl Config {
    #[verifier::type_invariant]
    spec fn positive(&self) -> bool {
        self.max_width > 0 && self.indent_width > 0
    }

    /// Checks the two widths and builds the configuration. A zero maximum width
    /// is reported first.
    pub fn new(max_width: usize, indent_width: usize, newline: Vec<u8>) -> (r: Result<
        Config,
        ConfigError,
    >)
        ensures
            match r {
                Ok(config) => config@.valid() && config@ == (Settings {
                    max_width: max_width as nat,
                    indent_width: indent_width as nat,
                    newline: newline@,
                }),
                Err(ConfigError::ZeroMaxWidth) => max_width == 0,
                Err(ConfigError::ZeroIndentWidth) => max_width > 0 && indent_width == 0,
            },
    {
        if max_width == 0 {
            Err(ConfigError::ZeroMaxWidth)
        } else if indent_width == 0 {
            Err(ConfigError::ZeroIndentWidth)
        } else {
            Ok(Config { max_width, indent_width, newline })
        }
    }

    /// The maximum line width.
    pub fn max_width(&self) -> (r: usize)
        ensures
            r == self@.max_width,
            r > 0,
    {
        proof {
            use_type_invariant(self);
        }
        self.max_width
    }

    /// The number of spaces per level of indentation.
    pub fn indent_width(&self) -> (r: usize)
        ensures
            r == self@.indent_width,
            r > 0,
    {
        proof {
            use_type_invariant(self);
        }
        self.indent_width
    }

    /// The line terminator.
    pub fn newline(&self) -> (r: &Vec<u8>)
        ensures
            r@ == self@.newline,
    {
        &self.newline
    }
}

} // verus!

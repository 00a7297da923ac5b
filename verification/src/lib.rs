//! A width-aware pretty-printing layout engine.
//!
//! A document is a tree of layout commands ([`command::Command`]). The printer
//! ([`printer::print`]) walks it once and writes text that keeps to a maximum
//! line width where the document allows it: every group is laid out on one line
//! when it fits and is broken across lines when it does not.
//!
//! The rules of the layout are stated as mathematics in [`layout`] and
//! [`measure`]; the printer is proved to follow them, and [`laws`] and
//! [`invariants`] hold what follows from them for every document.

pub mod command;
pub mod config;
pub mod invariants;
pub mod laws;
pub mod layout;
pub mod measure;
pub mod node;
pub mod printer;

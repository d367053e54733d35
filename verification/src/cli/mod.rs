//! The command line: arguments, their parsing, and the subcommands.
pub mod defs;
pub mod main;
pub mod parser;
pub mod sub;

pub use main::{MainArgs, Unpm, Unpx};

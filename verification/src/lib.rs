//! Helpers for Unix command-line programs built on `getopts`: canonical usage
//! and version text, the conventional `--help` and `--version` flags, argument
//! parsing that reports a failure as a value, and the exit codes of
//! `sysexits.h`.
//!
//! Nothing here reads the process's arguments or writes to a stream. A program
//! hands in its argument list and invocation name, and decides itself where
//! the text goes and how it terminates.

pub mod options;
pub mod parse;
pub mod program;
pub mod sysexits;
pub mod usage;

pub use crate::parse::{abort_message, parse_args, report_failure, ArgumentParseError, FailureKind};
pub use crate::program::exec_path;
pub use crate::usage::{helpopt, usage_string, version_string, versionopt};

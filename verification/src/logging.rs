//! The levels at which the host may ask for log messages.

use vstd::prelude::*;
use crate::text::text_eq;

verus! {

/// A log level.
#[derive(Debug, Clone, Copy, PartialEq, Eq, Structural)]
pub enum LogLevel {
    Trace,
    Debug,
    Info,
    Warn,
    Error,
}

/// The level that a text names. A text that names none stands for `Error`.
pub open spec fn level_of(text: Seq<char>) -> LogLevel {
    if text == "trace"@ {
        LogLevel::Trace
    } else if text == "debug"@ {
        LogLevel::Debug
    } else if text == "info"@ {
        LogLevel::Info
    } else if text == "warn"@ {
        LogLevel::Warn
    } else {
        LogLevel::Error
    }
}

/// Reads a log level.
pub fn log_level(text: &str) -> (r: LogLevel)
    ensures
        r == level_of(text@),
{
    if text_eq(text, "trace") {
        LogLevel::Trace
    } else if text_eq(text, "debug") {
        LogLevel::Debug
    } else if text_eq(text, "info") {
        LogLevel::Info
    } else if text_eq(text, "warn") {
        LogLevel::Warn
    } else {
        LogLevel::Error
    }
}

} // verus!

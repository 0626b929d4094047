//! Choice of the log level from its textual name.

use vstd::prelude::*;
use crate::text::{lowercase, str_eq, to_lowercase};

verus! {

/// How much the launcher logs.
#[derive(Debug, Clone, Copy, PartialEq, Eq, Structural)]
pub enum LogLevel {
    Error,
    Warn,
    Info,
    Debug,
    Trace,
}

/// The level named by a lower-cased name; unknown names give `Info`.
pub open spec fn level_for_name(lower: Seq<char>) -> LogLevel {
    if lower == "error"@ {
        LogLevel::Error
    } else if lower == "warn"@ {
        LogLevel::Warn
    } else if lower == "debug"@ {
        LogLevel::Debug
    } else if lower == "trace"@ {
        LogLevel::Trace
    } else {
        LogLevel::Info
    }
}

/// The log level of a lower-cased name (see `level_for_name`).
pub fn level_for_lowercase(lower: &str) -> (l: LogLevel)
    ensures
        l == level_for_name(lower@),
{
    if str_eq(lower, "error") {
        LogLevel::Error
    } else if str_eq(lower, "warn") {
        LogLevel::Warn
    } else if str_eq(lower, "debug") {
        LogLevel::Debug
    } else if str_eq(lower, "trace") {
        LogLevel::Trace
    } else {
        LogLevel::Info
    }
}

/// The log level named by `s` (as in `RUST_LOG`), compared without regard
/// to case.
pub fn parse_level(s: &str) -> (l: LogLevel)
    ensures
        l == level_for_name(lowercase(s@)),
{
    let lower = to_lowercase(s);
    level_for_lowercase(lower.as_str())
}

} // verus!

//! The log-line side of the engine-hosted logger: which records pass
//! the configured level, and the exact text of a rendered record.
//!
//! Installing the logger globally and printing through the engine are
//! side effects of the embedding application; this module owns the
//! decisions — the level filter and the line format — so they carry
//! contracts.

use vstd::prelude::*;
use crate::text::{spec_decimal, to_decimal};

verus! {

/// The severity of a log record, most severe first.
#[derive(Clone, Copy, Debug, PartialEq, Eq, Structural)]
pub enum LogLevel {
    Error,
    Warn,
    Info,
    Debug,
    Trace,
}

/// The rank of a level: lower means more severe.
pub open spec fn spec_level_rank(level: LogLevel) -> int {
    match level {
        LogLevel::Error => 1,
        LogLevel::Warn => 2,
        LogLevel::Info => 3,
        LogLevel::Debug => 4,
        LogLevel::Trace => 5,
    }
}

/// The upper-case name of a level, as a rendered record shows it.
pub open spec fn spec_level_name(level: LogLevel) -> Seq<char> {
    match level {
        LogLevel::Error => "ERROR"@,
        LogLevel::Warn => "WARN"@,
        LogLevel::Info => "INFO"@,
        LogLevel::Debug => "DEBUG"@,
        LogLevel::Trace => "TRACE"@,
    }
}

/// The exact text of a rendered record: the level's name, the module
/// path and the line number in brackets, then the message.
pub open spec fn spec_log_line(
    level: LogLevel,
    module: Seq<char>,
    line: int,
    msg: Seq<char>,
) -> Seq<char> {
    "["@ + spec_level_name(level) + "]["@ + module + "]["@ + spec_decimal(line) + "] "@ + msg
}

/// The engine-hosted logger: it filters by a maximum level and
/// renders each passing record as one line for the engine console.
#[derive(Clone, Copy, Debug, PartialEq, Eq, Structural)]
pub struct GodotLog {
    pub max_level: LogLevel,
}

impl GodotLog {
    /// The logger as a session installs it: records up to the
    /// informational level pass.
    pub fn init() -> (r: GodotLog)
        ensures
            r.max_level is Info,
    {
        GodotLog { max_level: LogLevel::Info }
    }

    /// Whether a record of this level passes the filter.
    pub fn enabled(&self, level: LogLevel) -> (r: bool)
        ensures
            r == (spec_level_rank(level) <= spec_level_rank(self.max_level)),
    {
        level_rank(level) <= level_rank(self.max_level)
    }

    /// Renders one record as the line the engine console shows.
    pub fn format_record(&self, level: LogLevel, module: &str, line: u64, msg: &str) -> (r: String)
        ensures
            r@ == spec_log_line(level, module@, line as int, msg@),
    {
        proof {
            reveal_strlit("[");
            reveal_strlit("][");
            reveal_strlit("] ");
        }
        let mut s = String::from_str("[");
        s.append(level_name(level));
        s.append("][");
        s.append(module);
        s.append("][");
        let digits = to_decimal(line);
        s.append(digits.as_str());
        s.append("] ");
        s.append(msg);
        proof {
            assert(s@ =~= spec_log_line(level, module@, line as int, msg@));
        }
        s
    }
}

/// The rank of a level as a machine integer.
fn level_rank(level: LogLevel) -> (r: u8)
    ensures
        r == spec_level_rank(level),
{
    match level {
        LogLevel::Error => 1,
        LogLevel::Warn => 2,
        LogLevel::Info => 3,
        LogLevel::Debug => 4,
        LogLevel::Trace => 5,
    }
}

/// The upper-case name of a level.
fn level_name(level: LogLevel) -> (r: &'static str)
    ensures
        r@ == spec_level_name(level),
{
    proof {
        reveal_strlit("ERROR");
        reveal_strlit("WARN");
        reveal_strlit("INFO");
        reveal_strlit("DEBUG");
        reveal_strlit("TRACE");
    }
    match level {
        LogLevel::Error => "ERROR",
        LogLevel::Warn => "WARN",
        LogLevel::Info => "INFO",
        LogLevel::Debug => "DEBUG",
        LogLevel::Trace => "TRACE",
    }
}

} // verus!

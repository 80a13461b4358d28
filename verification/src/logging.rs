//! Logging configuration values: destinations, severity levels and the
//! textual names the native logger expects for them.

use vstd::prelude::*;

verus! {

/// Log destination type; `Disabled` turns logging off.
#[derive(Debug, Clone, Copy, PartialEq, Eq, Structural)]
pub enum LoggingTarget {
    Disabled,
    Syslog,
    File,
    Stream,
}

/// Log severity level.
#[derive(Debug, Clone, Copy, PartialEq, Eq, Structural)]
pub enum LoggingLevel {
    Debug,
    Info,
    Warn,
    Error,
    Fatal,
}

impl LoggingLevel {
    /// The level name understood by the native logger's level parser.
    pub fn name(&self) -> (r: &'static str)
        ensures
            r@ == spec_level_name(*self),
    {
        match self {
            LoggingLevel::Debug => "DEBUG",
            LoggingLevel::Info => "INFO",
            LoggingLevel::Warn => "WARN",
            LoggingLevel::Error => "ERROR",
            LoggingLevel::Fatal => "FATAL",
        }
    }
}

pub open spec fn spec_level_name(level: LoggingLevel) -> Seq<char> {
    match level {
        LoggingLevel::Debug => "DEBUG"@,
        LoggingLevel::Info => "INFO"@,
        LoggingLevel::Warn => "WARN"@,
        LoggingLevel::Error => "ERROR"@,
        LoggingLevel::Fatal => "FATAL"@,
    }
}

/// Log output stream selector.
#[derive(Debug, Clone, Copy, PartialEq, Eq, Structural)]
pub enum LoggingStream {
    StdOut,
    StdErr,
}

} // verus!

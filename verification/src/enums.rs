//! Verbosity levels for the run's reporting.

use vstd::prelude::*;

verus! {

/// How much of the run's reporting is shown.
#[derive(Debug, Copy, Clone, PartialEq, Eq, Structural)]
pub enum LogLevel {
    Info,
    Warning,
    Error,
}

impl Default for LogLevel {
    /// Reporting defaults to errors only.
    fn default() -> (r: Self)
        ensures
            r == LogLevel::Error,
    {
        LogLevel::Error
    }
}

/// Whether a message of the given severity is shown at the given verbosity:
/// informational messages only at `Info`, warnings at `Warning` and above,
/// errors always.
pub open spec fn spec_allows(level: LogLevel, message: LogLevel) -> bool {
    match message {
        LogLevel::Info => level == LogLevel::Info,
        LogLevel::Warning => level == LogLevel::Info || level == LogLevel::Warning,
        LogLevel::Error => true,
    }
}

impl LogLevel {
    /// Whether a message of severity `message` is shown at this verbosity.
    pub fn allows(self, message: LogLevel) -> (r: bool)
        ensures
            r == spec_allows(self, message),
    {
        match message {
            LogLevel::Info => matches!(self, LogLevel::Info),
            LogLevel::Warning => matches!(self, LogLevel::Info | LogLevel::Warning),
            LogLevel::Error => true,
        }
    }
}

} // verus!

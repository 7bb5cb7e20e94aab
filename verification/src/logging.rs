//! Log levels and the logging decision.
//!
//! Writing the line out is I/O and happens at the binary's edge; what the
//! library decides — whether a message at a given level passes the filter
//! — is verified here.

use vstd::prelude::*;

verus! {

/// How important a log message is, least to most verbose.
#[derive(Clone, Copy, PartialEq, Eq, Structural, Debug)]
pub enum LogLevel {
    Low,
    Medium,
    High,
    Dev,
}

/// The numeric severity of a level; higher is more verbose.
pub open spec fn severity_of(level: LogLevel) -> int {
    match level {
        LogLevel::Low => 1,
        LogLevel::Medium => 2,
        LogLevel::High => 3,
        LogLevel::Dev => 4,
    }
}

/// The executable counterpart of `severity_of`.
pub fn severity(level: LogLevel) -> (r: u32)
    ensures
        r == severity_of(level),
{
    match level {
        LogLevel::Low => 1,
        LogLevel::Medium => 2,
        LogLevel::High => 3,
        LogLevel::Dev => 4,
    }
}

pub struct Logger {}

impl Logger {
    /// Decides whether a message at `level` passes the filter, which
    /// admits everything up to and including the `Dev` level; the caller
    /// at the binary's edge prints the line when this returns true.
    #[allow(unused_variables)]
    pub fn log(level: LogLevel, culprit: &str, message: &str) -> (emitted: bool)
        ensures
            emitted == (severity_of(level) <= severity_of(LogLevel::Dev)),
    {
        severity(level) <= severity(LogLevel::Dev)
    }
}

} // verus!

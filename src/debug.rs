use vstd::prelude::*;

verus! {

/// Severity bits of diagnostic messages, as the runtime reports them.
pub const SEVERITY_VERBOSE: u32 = 0x1;

pub const SEVERITY_INFO: u32 = 0x10;

pub const SEVERITY_WARNING: u32 = 0x100;

pub const SEVERITY_ERROR: u32 = 0x1000;

/// The host log levels diagnostics are re-emitted at.
#[derive(Clone, Copy, Debug, PartialEq, Eq, Structural)]
pub enum LogLevel {
    Trace,
    Debug,
    Warn,
    Error,
}

/// The order of log levels, from least to most severe.
pub open spec fn level_rank(l: LogLevel) -> int {
    match l {
        LogLevel::Trace => 0,
        LogLevel::Debug => 1,
        LogLevel::Warn => 2,
        LogLevel::Error => 3,
    }
}

/// The log level of a diagnostic of this severity: a cascade of thresholds
/// from error down to trace.
pub open spec fn severity_level(severity: u32) -> LogLevel {
    if severity >= SEVERITY_ERROR {
        LogLevel::Error
    } else if severity >= SEVERITY_WARNING {
        LogLevel::Warn
    } else if severity >= SEVERITY_INFO {
        LogLevel::Debug
    } else {
        LogLevel::Trace
    }
}

/// What the diagnostic callback does with one message: the level it is logged
/// at, and whether the call that raised it is aborted.
#[derive(Clone, Copy, Debug, PartialEq, Eq, Structural)]
pub struct DebugResponse {
    pub level: LogLevel,
    pub abort_call: bool,
}

/// The log level for a diagnostic of this severity.
pub fn level_for_severity(severity: u32) -> (r: LogLevel)
    ensures
        r == severity_level(severity),
{
    if severity >= SEVERITY_ERROR {
        LogLevel::Error
    } else if severity >= SEVERITY_WARNING {
        LogLevel::Warn
    } else if severity >= SEVERITY_INFO {
        LogLevel::Debug
    } else {
        LogLevel::Trace
    }
}

/// The callback's response to a diagnostic: it only observes, so the call that
/// raised the message is never aborted.
pub fn debug_callback(severity: u32) -> (r: DebugResponse)
    ensures
        r.level == severity_level(severity),
        !r.abort_call,
{
    DebugResponse { level: level_for_severity(severity), abort_call: false }
}

/// A more severe diagnostic is never logged at a lower level than a less
/// severe one, and every severity lands on exactly one of the four levels.
pub proof fn lemma_severity_monotonic(a: u32, b: u32)
    requires
        a <= b,
    ensures
        level_rank(severity_level(a)) <= level_rank(severity_level(b)),
        0 <= level_rank(severity_level(a)) <= 3,
{
}

/// Each of the runtime's four severities maps to its own level.
pub proof fn lemma_named_severities()
    ensures
        severity_level(SEVERITY_VERBOSE) == LogLevel::Trace,
        severity_level(SEVERITY_INFO) == LogLevel::Debug,
        severity_level(SEVERITY_WARNING) == LogLevel::Warn,
        severity_level(SEVERITY_ERROR) == LogLevel::Error,
{
}

} // verus!

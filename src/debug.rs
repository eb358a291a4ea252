use vstd::prelude::*;

verus! {

/// Severity bits of a driver diagnostic, as the driver sets them.
pub const SEVERITY_VERBOSE: u32 = 0x1;
pub const SEVERITY_INFO: u32 = 0x10;
pub const SEVERITY_WARNING: u32 = 0x100;
pub const SEVERITY_ERROR: u32 = 0x1000;

/// The log level that a driver diagnostic is forwarded at.
#[derive(Debug, Copy, Clone, PartialEq, Eq, Structural)]
pub enum LogLevel {
    Trace,
    Info,
    Warn,
    Error,
}

/// The level of the most severe bit set, if any of the four is.
pub open spec fn spec_level(bits: u32) -> Option<LogLevel> {
    if bits & SEVERITY_ERROR != 0 {
        Some(LogLevel::Error)
    } else if bits & SEVERITY_WARNING != 0 {
        Some(LogLevel::Warn)
    } else if bits & SEVERITY_INFO != 0 {
        Some(LogLevel::Info)
    } else if bits & SEVERITY_VERBOSE != 0 {
        Some(LogLevel::Trace)
    } else {
        None
    }
}

/// Classifies a diagnostic by severity: verbose goes to trace, info to info,
/// warning to warn, error to error; with several bits the most severe wins.
pub fn severity_level(bits: u32) -> (r: Option<LogLevel>)
    ensures
        r == spec_level(bits),
{
    if bits & SEVERITY_ERROR != 0 {
        Some(LogLevel::Error)
    } else if bits & SEVERITY_WARNING != 0 {
        Some(LogLevel::Warn)
    } else if bits & SEVERITY_INFO != 0 {
        Some(LogLevel::Info)
    } else if bits & SEVERITY_VERBOSE != 0 {
        Some(LogLevel::Trace)
    } else {
        None
    }
}

} // verus!

//! Diagnostics-layer decisions.
//!
//! The driver tags each diagnostic message with severity and category bits.
//! The messenger is registered for a fixed set of severities and categories,
//! and each delivered message is routed to one log level by its highest
//! severity bit. The routing is a pure decision; emitting the message is the
//! logging adapter's business, and the callback makes no driver calls.

use vstd::prelude::*;

verus! {

/// Severity bit: verbose diagnostics.
pub const SEVERITY_VERBOSE: u32 = 0x1;

/// Severity bit: informational messages.
pub const SEVERITY_INFO: u32 = 0x10;

/// Severity bit: warnings.
pub const SEVERITY_WARNING: u32 = 0x100;

/// Severity bit: errors.
pub const SEVERITY_ERROR: u32 = 0x1000;

/// Category bit: general messages.
pub const TYPE_GENERAL: u32 = 0x1;

/// Category bit: validation findings.
pub const TYPE_VALIDATION: u32 = 0x2;

/// Category bit: performance findings.
pub const TYPE_PERFORMANCE: u32 = 0x4;

/// Every severity the messenger subscribes to.
pub const MESSENGER_SEVERITY_MASK: u32 = SEVERITY_ERROR | SEVERITY_WARNING | SEVERITY_INFO
    | SEVERITY_VERBOSE;

/// Every category the messenger subscribes to.
pub const MESSENGER_TYPE_MASK: u32 = TYPE_GENERAL | TYPE_VALIDATION | TYPE_PERFORMANCE;

/// The log levels of the logging sink, in descending order of urgency.
#[derive(Debug, Clone, Copy, PartialEq, Eq, Structural)]
pub enum LogLevel {
    Error,
    Warn,
    Info,
    Debug,
    Trace,
}

/// The level a message is routed to: decided by its highest severity bit,
/// and trace when no known severity bit is set.
pub open spec fn routed_level(severity: u32) -> LogLevel {
    if severity & SEVERITY_ERROR != 0 {
        LogLevel::Error
    } else if severity & SEVERITY_WARNING != 0 {
        LogLevel::Warn
    } else if severity & SEVERITY_INFO != 0 {
        LogLevel::Info
    } else if severity & SEVERITY_VERBOSE != 0 {
        LogLevel::Debug
    } else {
        LogLevel::Trace
    }
}

/// Routes one diagnostic message's severity bits to a log level.
pub fn log_level_for_severity(severity: u32) -> (r: LogLevel)
    ensures
        r == routed_level(severity),
{
    if severity & SEVERITY_ERROR != 0 {
        LogLevel::Error
    } else if severity & SEVERITY_WARNING != 0 {
        LogLevel::Warn
    } else if severity & SEVERITY_INFO != 0 {
        LogLevel::Info
    } else if severity & SEVERITY_VERBOSE != 0 {
        LogLevel::Debug
    } else {
        LogLevel::Trace
    }
}

/// What the messenger is registered with: the severity and category bits it
/// subscribes to.
#[derive(Debug, Clone, Copy, PartialEq, Eq, Structural)]
pub struct DebugMessengerConfig {
    pub severity_mask: u32,
    pub type_mask: u32,
}

/// Fills the messenger registration: every severity and every category.
pub fn populate_debug_messenger_config() -> (r: DebugMessengerConfig)
    ensures
        r.severity_mask == MESSENGER_SEVERITY_MASK,
        r.type_mask == MESSENGER_TYPE_MASK,
{
    DebugMessengerConfig { severity_mask: MESSENGER_SEVERITY_MASK, type_mask: MESSENGER_TYPE_MASK }
}

} // verus!

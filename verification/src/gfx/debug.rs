//! What the debug channel of the graphics API reports, as log records.

use crate::gfx::vulkan::{error_floor, severity_floors, warning_floor};
use crate::logger::{engine_sink, log_engine, records, LogLevel, LogRecord};
use vstd::prelude::*;
use vstd::string::*;

verus! {

/// The level at which a debug message of the given severity is logged: `Error`
/// from the error severity up, `Warning` from the warning severity up, `Trace`
/// below that.
pub open spec fn level_of(severity: u32) -> LogLevel {
    if severity >= error_floor() {
        LogLevel::Error
    } else if severity >= warning_floor() {
        LogLevel::Warning
    } else {
        LogLevel::Trace
    }
}

/// The words of a debug message: its kind in brackets, then the message.
pub open spec fn message_text(kind: Seq<char>, message: Seq<char>) -> Seq<char> {
    "("@ + kind + ") "@ + message
}

/// The level at which a debug message of the given severity is logged.
pub fn severity_level(severity: u32) -> (level: LogLevel)
    ensures
        level == level_of(severity),
{
    let floors = severity_floors();
    if severity >= floors.1 {
        LogLevel::Error
    } else if severity >= floors.0 {
        LogLevel::Warning
    } else {
        LogLevel::Trace
    }
}

/// The words of a debug message of the given kind.
pub fn debug_message(kind: &str, message: &str) -> (text: String)
    ensures
        text@ == message_text(kind@, message@),
{
    let mut text = String::from_str("(");
    text.append(kind);
    text.append(") ");
    text.append(message);
    text
}

/// What the debug callback does with a message.
pub struct DebugReport {
    /// The record to log, under the engine's sink.
    pub record: LogRecord,
    /// Whether the call of the graphics API that caused the message is to be
    /// aborted. It never is.
    pub abort: bool,
}

/// The debug callback's answer to a message of the given severity and kind:
/// the message is logged at the level of its severity, and the call that
/// caused it goes on.
pub fn debug_callback(severity: u32, kind: &str, message: &str) -> (report: DebugReport)
    ensures
        !report.abort,
        records(
            report.record,
            engine_sink(),
            level_of(severity),
            message_text(kind@, message@),
        ),
{
    let record = log_engine(severity_level(severity), debug_message(kind, message));
    DebugReport { record, abort: false }
}

} // verus!

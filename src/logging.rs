//! The log shell commands: each decides the line it writes at its level.
use vstd::prelude::*;
use crate::param::ParamItem;

verus! {

/// Severity of a log line.
#[derive(Debug, Clone, Copy, PartialEq, Eq, Structural)]
pub enum Level {
    Error,
    Warn,
    Info,
    Debug,
    Trace,
}

/// One line for the log: its level and its text.
pub struct LogLine {
    pub level: Level,
    pub text: &'static str,
}

/// The `log_info` command: an INFO line. Arguments are ignored.
pub fn cmd_log_info(args: &Vec<ParamItem>) -> (r: LogLine)
    ensures
        r.level == Level::Info,
        r.text@ == "hello from rust log component"@,
{
    LogLine { level: Level::Info, text: "hello from rust log component" }
}

/// The `log_warn` command: a WARN line. Arguments are ignored.
pub fn cmd_log_warn(args: &Vec<ParamItem>) -> (r: LogLine)
    ensures
        r.level == Level::Warn,
        r.text@ == "warn from rust"@,
{
    LogLine { level: Level::Warn, text: "warn from rust" }
}

/// The `log_error` command: an ERROR line. Arguments are ignored.
pub fn cmd_log_error(args: &Vec<ParamItem>) -> (r: LogLine)
    ensures
        r.level == Level::Error,
        r.text@ == "error from rust"@,
{
    LogLine { level: Level::Error, text: "error from rust" }
}

} // verus!

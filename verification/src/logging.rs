//! The classification of log messages that come back from a plugin.
//!
//! A plugin reports each message with a level token, a text and, optionally,
//! a target. The token is one letter or a full word. This module turns such
//! a report into a record for a levelled, targeted sink.

use crate::text::str_eq;
use vstd::prelude::*;
use vstd::string::*;

verus! {

/// The severity of a log record.
#[derive(Debug, Copy, Clone, PartialEq, Eq, Structural, Hash)]
pub enum LogLevel {
    Trace,
    Debug,
    Info,
    Warn,
    Error,
}

/// A message ready to be handed to the sink.
pub struct LogRecord {
    pub level: LogLevel,
    pub target: String,
    pub message: String,
}

/// The severity that a level token stands for. Errors and critical errors
/// share one severity. A token outside this list stands for none.
pub open spec fn level_of(token: Seq<char>) -> Option<LogLevel> {
    if token == "I"@ || token == "Info"@ {
        Some(LogLevel::Info)
    } else if token == "W"@ || token == "Warning"@ {
        Some(LogLevel::Warn)
    } else if token == "E"@ || token == "C"@ || token == "Error"@ {
        Some(LogLevel::Error)
    } else if token == "D"@ || token == "Debug"@ {
        Some(LogLevel::Debug)
    } else if token == "T"@ || token == "Trace"@ {
        Some(LogLevel::Trace)
    } else {
        None
    }
}

/// The target of a message that names none.
pub open spec fn default_target() -> Seq<char> {
    "lc-cpp"@
}

/// The target that a record gets: the one supplied, or the default.
pub open spec fn target_of(target: Option<&str>) -> Seq<char> {
    match target {
        Some(name) => name@,
        None => default_target(),
    }
}

impl LogLevel {
    /// The severity that `token` stands for; `None` for a token that is not
    /// recognized.
    pub fn parse(token: &str) -> (level: Option<LogLevel>)
        ensures
            level == level_of(token@),
    {
        if str_eq(token, "I") || str_eq(token, "Info") {
            Some(LogLevel::Info)
        } else if str_eq(token, "W") || str_eq(token, "Warning") {
            Some(LogLevel::Warn)
        } else if str_eq(token, "E") || str_eq(token, "C") || str_eq(token, "Error") {
            Some(LogLevel::Error)
        } else if str_eq(token, "D") || str_eq(token, "Debug") {
            Some(LogLevel::Debug)
        } else if str_eq(token, "T") || str_eq(token, "Trace") {
            Some(LogLevel::Trace)
        } else {
            None
        }
    }
}

impl LogRecord {
    /// The record of a message reported with a recognized level token. The
    /// message and the target are kept as they came; a message without a
    /// target gets the default one.
    pub fn route(level: &str, message: &str, target: Option<&str>) -> (record: LogRecord)
        requires
            level_of(level@) is Some,
        ensures
            Some(record.level) == level_of(level@),
            record.message@ == message@,
            record.target@ == target_of(target),
    {
        let severity = match LogLevel::parse(level) {
            Some(severity) => severity,
            None => LogLevel::Error,
        };
        let target = match target {
            Some(name) => String::from_str(name),
            None => String::from_str("lc-cpp"),
        };
        LogRecord { level: severity, target, message: String::from_str(message) }
    }

    /// As [`LogRecord::route`], for any token: `None` where the level token
    /// is not recognized.
    pub fn try_route(level: &str, message: &str, target: Option<&str>) -> (record: Option<
        LogRecord,
    >)
        ensures
            match level_of(level@) {
                Some(severity) => record matches Some(routed) && routed.level == severity
                    && routed.message@ == message@ && routed.target@ == target_of(target),
                None => record is None,
            },
    {
        match LogLevel::parse(level) {
            Some(_) => Some(LogRecord::route(level, message, target)),
            None => None,
        }
    }
}

/// The eleven level tokens are told apart: each stands for the severity its
/// name says, and for no other.
pub proof fn lemma_level_tokens(token: Seq<char>)
    ensures
        level_of(token) == Some(LogLevel::Info) <==> (token == "I"@ || token == "Info"@),
        level_of(token) == Some(LogLevel::Warn) <==> (token == "W"@ || token == "Warning"@),
        level_of(token) == Some(LogLevel::Error) <==> (token == "E"@ || token == "C"@ || token
            == "Error"@),
        level_of(token) == Some(LogLevel::Debug) <==> (token == "D"@ || token == "Debug"@),
        level_of(token) == Some(LogLevel::Trace) <==> (token == "T"@ || token == "Trace"@),
{
    reveal_strlit("I");
    reveal_strlit("Info");
    reveal_strlit("W");
    reveal_strlit("Warning");
    reveal_strlit("E");
    reveal_strlit("C");
    reveal_strlit("Error");
    reveal_strlit("D");
    reveal_strlit("Debug");
    reveal_strlit("T");
    reveal_strlit("Trace");
    assert("I"@.len() == 1 && "I"@[0] == 'I');
    assert("W"@.len() == 1 && "W"@[0] == 'W');
    assert("E"@.len() == 1 && "E"@[0] == 'E');
    assert("C"@.len() == 1 && "C"@[0] == 'C');
    assert("D"@.len() == 1 && "D"@[0] == 'D');
    assert("T"@.len() == 1 && "T"@[0] == 'T');
    assert("Info"@.len() == 4);
    assert("Warning"@.len() == 7);
    assert("Error"@.len() == 5 && "Error"@[0] == 'E');
    assert("Debug"@.len() == 5 && "Debug"@[0] == 'D');
    assert("Trace"@.len() == 5 && "Trace"@[0] == 'T');
}

} // verus!

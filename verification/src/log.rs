//! The lines of the log.

use crate::text::{append_chars, from_chars, to_chars};
use vstd::prelude::*;

verus! {

/// How grave a line of the log is.
#[derive(Debug, Clone, Copy, PartialEq, Eq, Structural)]
pub enum LogLevel {
    Info,
    Warn,
    Error,
    Debug,
}

impl LogLevel {
    /// The name of the level.
    pub fn name(&self) -> (r: &'static str)
        ensures
            r@ == match *self {
                LogLevel::Info => "Info"@,
                LogLevel::Warn => "Warn"@,
                LogLevel::Error => "Error"@,
                LogLevel::Debug => "Debug"@,
            },
    {
        match self {
            LogLevel::Info => "Info",
            LogLevel::Warn => "Warn",
            LogLevel::Error => "Error",
            LogLevel::Debug => "Debug",
        }
    }
}

/// A line of the log: `<level>[datetime] {info}`.
pub open spec fn log_text(level: Seq<char>, datetime: Seq<char>, info: Seq<char>) -> Seq<char> {
    seq!['<'] + level + seq!['>', '['] + datetime + seq![']', ' ', '{'] + info + seq!['}']
}

/// The line of the log that says `info` at the level `level`, written at
/// `datetime`.
pub fn log_line(level: &str, datetime: &str, info: &str) -> (r: String)
    ensures
        r@ == log_text(level@, datetime@, info@),
{
    let mut line: Vec<char> = Vec::new();
    line.push('<');
    append_chars(&mut line, &to_chars(level));
    line.push('>');
    line.push('[');
    append_chars(&mut line, &to_chars(datetime));
    line.push(']');
    line.push(' ');
    line.push('{');
    append_chars(&mut line, &to_chars(info));
    line.push('}');
    assert(line@ == log_text(level@, datetime@, info@));
    from_chars(&line)
}

} // verus!

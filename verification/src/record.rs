//! One structured log event, carried from the call site to the sinks.

use vstd::prelude::*;
use crate::level::Level;

verus! {

/// Mathematical image of a [`Record`]: the same fields with every string
/// replaced by its character sequence.
pub struct RecordView {
    pub level: Level,
    pub file: Option<Seq<char>>,
    pub line: Option<u32>,
    pub target: Option<Seq<char>>,
    pub args: Seq<char>,
}

/// One log record: a severity, the source location that produced it (when
/// known), an optional logical target name, and the message body itself.
/// A record is built once at the call site and consumed synchronously.
pub struct Record {
    /// Severity of this message.
    pub level: Level,
    /// Source file that produced the message, when known.
    pub file: Option<String>,
    /// Line in the source file, when known.
    pub line: Option<u32>,
    /// Logical target (usually the module path), when known.
    pub target: Option<String>,
    /// The formatted message body.
    pub args: String,
}

impl View for Record {
    type V = RecordView;

    open spec fn view(&self) -> RecordView {
        RecordView {
            level: self.level,
            file: match self.file {
                Some(f) => Some(f@),
                None => None,
            },
            line: self.line,
            target: match self.target {
                Some(t) => Some(t@),
                None => None,
            },
            args: self.args@,
        }
    }
}

impl Record {
    /// Builds a record from its parts.
    pub fn new(level: Level, file: Option<String>, line: Option<u32>, target: Option<String>, args: String) -> (r: Record)
        ensures
            r.level == level,
            r.file == file,
            r.line == line,
            r.target == target,
            r.args == args,
    {
        Record { level, file, line, target, args }
    }
}

} // verus!

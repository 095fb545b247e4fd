//! The log record that an emitter consumes.

use vstd::prelude::*;

use crate::config::Level;

verus! {

/// One log call: made by the caller right before it logs, rendered at once, never stored.
#[derive(Clone, Debug, PartialEq, Eq)]
pub struct Record {
    /// Severity of the record.
    pub level: Level,
    /// Name of the module or component that the record comes from.
    pub target: String,
    /// The message, already formatted.
    pub args: String,
    /// Source file of the log call, where known.
    pub file: Option<String>,
    /// Line of the log call in its source file, where known.
    pub line: Option<u32>,
    /// When the record was made, in seconds since the Unix epoch.
    pub time: u64,
}

/// What a [`Record`] holds, as mathematical values.
pub struct RecordView {
    pub level: Level,
    pub target: Seq<char>,
    pub args: Seq<char>,
    pub file: Option<Seq<char>>,
    pub line: Option<u32>,
    pub time: u64,
}

impl View for Record {
    type V = RecordView;

    open spec fn view(&self) -> RecordView {
        RecordView {
            level: self.level,
            target: self.target@,
            args: self.args@,
            file: match self.file {
                Some(f) => Some(f@),
                None => None,
            },
            line: self.line,
            time: self.time,
        }
    }
}

} // verus!

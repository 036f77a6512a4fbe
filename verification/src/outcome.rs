//! The two-channel outcome of a parse: every record, or one tagged failure.

use crate::record::{record_views, DataRecord, DataRecordView};
use vstd::prelude::*;

verus! {

/// The closed set of failure classes.
#[derive(Clone, Copy, Debug, PartialEq, Eq, Structural)]
pub enum FailureKind {
    /// The decoder rejected the input.
    ParseError,
    /// The input path could not be opened.
    FileError,
    /// Reserved: no operation of this library reports it.
    IoError,
}

impl FailureKind {
    /// The stable label of this kind, as callers branch on it.
    pub open spec fn label(self) -> Seq<char> {
        match self {
            FailureKind::ParseError => "parse_error"@,
            FailureKind::FileError => "file_error"@,
            FailureKind::IoError => "io_error"@,
        }
    }

    /// Returns the stable label of this kind.
    pub fn as_str(self) -> (s: &'static str)
        ensures
            s@ == self.label(),
    {
        match self {
            FailureKind::ParseError => "parse_error",
            FailureKind::FileError => "file_error",
            FailureKind::IoError => "io_error",
        }
    }
}

/// The outcome of one parse: every record of the input, or one failure. It
/// is never partial.
#[derive(Clone, Debug, PartialEq, Eq)]
pub enum ParseResult {
    /// Every record of the input, converted, in emission order.
    Success(Vec<DataRecord>),
    /// The class of the failure, and a message for a human reader.
    Failure(FailureKind, String),
}

/// What a [`ParseResult`] holds.
pub enum ParseResultView {
    Success(Seq<DataRecordView>),
    Failure(FailureKind, Seq<char>),
}

impl View for ParseResult {
    type V = ParseResultView;

    open spec fn view(&self) -> ParseResultView {
        match self {
            ParseResult::Success(records) => ParseResultView::Success(record_views(records@)),
            ParseResult::Failure(kind, message) => ParseResultView::Failure(*kind, message@),
        }
    }
}

impl ParseResult {
    /// The outermost tag of this outcome.
    pub open spec fn tag_label(self) -> Seq<char> {
        match self {
            ParseResult::Success(_) => "ok"@,
            ParseResult::Failure(_, _) => "error"@,
        }
    }

    /// Returns the outermost tag of this outcome: `ok` or `error`.
    pub fn tag(&self) -> (s: &'static str)
        ensures
            s@ == self.tag_label(),
    {
        match self {
            ParseResult::Success(_) => "ok",
            ParseResult::Failure(_, _) => "error",
        }
    }

    /// Tells whether this outcome carries the records.
    pub fn is_success(&self) -> (b: bool)
        ensures
            b == (*self is Success),
    {
        match self {
            ParseResult::Success(_) => true,
            ParseResult::Failure(_, _) => false,
        }
    }
}

} // verus!

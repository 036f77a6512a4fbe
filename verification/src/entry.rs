//! The two entry operations: the outcome of parsing a buffer, and the
//! outcome of parsing a file. Each takes what the decoder answered and
//! returns one complete outcome.

use crate::decoder::{converted_messages, lemma_standing_records_convert_alike, outcome_of};
use crate::outcome::{FailureKind, ParseResult, ParseResultView};
use crate::record::{convert_records, converted_records, Record};
use vstd::prelude::*;

verus! {

/// What came of acquiring a file.
#[derive(Debug)]
pub enum FileAcquisition {
    /// The path could not be opened; holds the system's error text. The
    /// decoder was not asked.
    OpenFailed(String),
    /// The file was opened and the decoder read it; holds the decoder's
    /// answer, which is an error also where reading the file failed.
    Decoded(Result<Vec<fitparser::FitDataRecord>, Box<fitparser::ErrorKind>>),
}

/// What stands in front of the system's error text in the message of a file
/// that could not be opened.
pub open spec fn open_failure_prefix() -> Seq<char> {
    "Failed to open file: "@
}

/// The outcome for a finished decoding: every record converted, in order,
/// or a parse failure that carries the decoder's message as it is.
pub open spec fn routed(decoded: Result<Vec<Record>, String>) -> ParseResultView {
    match decoded {
        Ok(records) => ParseResultView::Success(converted_records(records@)),
        Err(message) => ParseResultView::Failure(FailureKind::ParseError, message@),
    }
}

/// The outcome for a file that could not be opened.
pub open spec fn open_failure(text: Seq<char>) -> ParseResultView {
    ParseResultView::Failure(FailureKind::FileError, open_failure_prefix() + text)
}

/// Tells whether `out` is the outcome for the answer `decoded` of the
/// decoder: every record that it returned, converted, in its order; or a
/// parse failure where it returned an error, never part of the records.
pub open spec fn is_outcome_of(
    out: ParseResultView,
    decoded: Result<Vec<fitparser::FitDataRecord>, Box<fitparser::ErrorKind>>,
) -> bool {
    match decoded {
        Ok(messages) => out == ParseResultView::Success(converted_messages(messages@)),
        Err(_) => out is Failure && out->Failure_0 == FailureKind::ParseError,
    }
}

/// An outcome is never partial: a decoding that failed routes to a parse
/// failure and to nothing else, and one that succeeded to every record.
pub proof fn lemma_routing_is_whole(decoded: Result<Vec<Record>, String>)
    ensures
        decoded is Err <==> routed(decoded) is Failure,
        decoded is Err ==> routed(decoded)->Failure_0 == FailureKind::ParseError,
        decoded matches Ok(records) ==> routed(decoded) == ParseResultView::Success(
            converted_records(records@),
        ) && converted_records(records@).len() == records@.len(),
{
}

/// The outcome for an answer of the decoder succeeds exactly when the
/// decoder did, with one record for each that it returned.
pub proof fn lemma_outcome_is_whole(
    out: ParseResultView,
    decoded: Result<Vec<fitparser::FitDataRecord>, Box<fitparser::ErrorKind>>,
)
    requires
        is_outcome_of(out, decoded),
    ensures
        out is Success <==> decoded is Ok,
        decoded matches Ok(messages) ==> out->Success_0.len() == messages@.len(),
        out is Failure ==> out->Failure_0 == FailureKind::ParseError,
{
}

/// A file that could not be opened is a file error whatever the file would
/// have held: the outcome depends on the system's error text alone, and it
/// is the outcome of no answer of the decoder.
pub proof fn lemma_open_failure_short_circuits(text: Seq<char>)
    ensures
        open_failure(text) is Failure,
        open_failure(text)->Failure_0 == FailureKind::FileError,
        forall|decoded: Result<Vec<Record>, String>| open_failure(text) != #[trigger] routed(decoded),
        forall|decoded: Result<Vec<fitparser::FitDataRecord>, Box<fitparser::ErrorKind>>|
            !#[trigger] is_outcome_of(open_failure(text), decoded),
{
}

/// Routes a finished decoding into the outcome: all records, or one parse
/// failure.
pub fn route_decoded(decoded: Result<Vec<Record>, String>) -> (out: ParseResult)
    ensures
        out@ == routed(decoded),
{
    match decoded {
        Ok(records) => ParseResult::Success(convert_records(&records)),
        Err(message) => ParseResult::Failure(FailureKind::ParseError, message),
    }
}

/// The outcome of parsing a buffer, from what the decoder answered to it.
///
/// Where the decoder returned records, the outcome is a success with every
/// one of them converted, in the decoder's order. Where it returned an
/// error, the outcome is a parse failure whose message is the text of that
/// error.
pub fn parse_from_bytes(
    decoded: Result<Vec<fitparser::FitDataRecord>, Box<fitparser::ErrorKind>>,
) -> (out: ParseResult)
    ensures
        is_outcome_of(out@, decoded),
{
    let standing = outcome_of(decoded);
    proof {
        if decoded is Ok {
            lemma_standing_records_convert_alike(standing->Ok_0@, decoded->Ok_0@);
        }
    }
    route_decoded(standing)
}

/// The outcome of parsing a file, from what came of acquiring it.
///
/// A file that could not be opened is a file error, whose message is the
/// system's error text behind a fixed prefix. For a file that was opened
/// the outcome is that of the decoder's answer, as for a buffer.
pub fn parse_from_file(acquired: FileAcquisition) -> (out: ParseResult)
    ensures
        acquired matches FileAcquisition::OpenFailed(text) ==> out@ == open_failure(text@),
        acquired matches FileAcquisition::Decoded(decoded) ==> is_outcome_of(out@, decoded),
        out@ matches ParseResultView::Failure(kind, _) ==> kind == if acquired is OpenFailed {
            FailureKind::FileError
        } else {
            FailureKind::ParseError
        },
{
    match acquired {
        FileAcquisition::OpenFailed(text) => {
            let message = String::from_str("Failed to open file: ").concat(text.as_str());
            ParseResult::Failure(FailureKind::FileError, message)
        },
        FileAcquisition::Decoded(decoded) => parse_from_bytes(decoded),
    }
}

} // verus!

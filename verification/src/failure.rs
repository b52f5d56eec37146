//! The ways a command can fail, and the text each failure is reported with.
//!
//! A failure reaches the caller as one plain string: a fixed head that tells
//! which step failed, followed by the detail that the failing step gave.

use crate::text::message;
use vstd::prelude::*;

verus! {

/// The step of a command that failed.
#[derive(Clone, Copy, Debug, PartialEq, Eq, Structural)]
pub enum Failure {
    /// The server could not be reached.
    Connect,
    /// The filter of a query is not the JSON of a document.
    ParseQuery,
    /// The driver refused or failed a query.
    ExecuteQuery,
    /// The results of a query could not be read to the end.
    ReadResults,
    /// The document to insert is not the JSON of a document.
    ParseDocument,
    /// The driver refused or failed the insertion of one document.
    InsertDocument,
    /// The batch to insert is not the JSON of an array of documents.
    ParseDocuments,
    /// The driver refused or failed the insertion of a batch.
    InsertDocuments,
    /// The pipeline is not the JSON of an array of stages.
    ParsePipeline,
    /// The driver refused or failed an aggregation.
    ExecuteAggregation,
    /// The results of an aggregation could not be read to the end.
    ReadAggregation,
    /// What the driver gave could not be rendered as JSON.
    SerializeResults,
}

impl Failure {
    /// The head of the message that reports this failure.
    pub open spec fn head(self) -> Seq<char> {
        match self {
            Failure::Connect => "Failed to connect: "@,
            Failure::ParseQuery => "Failed to parse query: "@,
            Failure::ExecuteQuery => "Failed to execute query: "@,
            Failure::ReadResults => "Failed to read results: "@,
            Failure::ParseDocument => "Failed to parse document: "@,
            Failure::InsertDocument => "Failed to insert document: "@,
            Failure::ParseDocuments => "Failed to parse documents: "@,
            Failure::InsertDocuments => "Failed to insert documents: "@,
            Failure::ParsePipeline => "Failed to parse pipeline: "@,
            Failure::ExecuteAggregation => "Failed to execute aggregation: "@,
            Failure::ReadAggregation => "Failed to read aggregation results: "@,
            Failure::SerializeResults => "Failed to serialize results: "@,
        }
    }

    /// The message that reports this failure with `detail`.
    pub open spec fn report(self, detail: Seq<char>) -> Seq<char> {
        self.head() + detail
    }

    /// The head of the message that reports this failure.
    pub fn prefix(self) -> (r: &'static str)
        ensures
            r@ == self.head(),
    {
        match self {
            Failure::Connect => "Failed to connect: ",
            Failure::ParseQuery => "Failed to parse query: ",
            Failure::ExecuteQuery => "Failed to execute query: ",
            Failure::ReadResults => "Failed to read results: ",
            Failure::ParseDocument => "Failed to parse document: ",
            Failure::InsertDocument => "Failed to insert document: ",
            Failure::ParseDocuments => "Failed to parse documents: ",
            Failure::InsertDocuments => "Failed to insert documents: ",
            Failure::ParsePipeline => "Failed to parse pipeline: ",
            Failure::ExecuteAggregation => "Failed to execute aggregation: ",
            Failure::ReadAggregation => "Failed to read aggregation results: ",
            Failure::SerializeResults => "Failed to serialize results: ",
        }
    }

    /// The message that reports this failure with `detail`.
    pub fn message(self, detail: &str) -> (r: String)
        ensures
            r@ == self.report(detail@),
    {
        message(self.prefix(), detail)
    }
}

/// Reports of two different failures differ, whatever the details: the heads
/// part ways before either of them ends, so a report tells which step failed.
pub proof fn reports_tell_failures_apart(
    a: Failure,
    b: Failure,
    detail_a: Seq<char>,
    detail_b: Seq<char>,
)
    requires
        a != b,
    ensures
        a.report(detail_a) != b.report(detail_b),
{
    reveal_strlit("Failed to connect: ");
    reveal_strlit("Failed to parse query: ");
    reveal_strlit("Failed to execute query: ");
    reveal_strlit("Failed to read results: ");
    reveal_strlit("Failed to parse document: ");
    reveal_strlit("Failed to insert document: ");
    reveal_strlit("Failed to parse documents: ");
    reveal_strlit("Failed to insert documents: ");
    reveal_strlit("Failed to parse pipeline: ");
    reveal_strlit("Failed to execute aggregation: ");
    reveal_strlit("Failed to read aggregation results: ");
    reveal_strlit("Failed to serialize results: ");
    let left = a.report(detail_a);
    let right = b.report(detail_b);
    assert(left[10] != right[10] || left[15] != right[15] || left[16] != right[16] || left[18]
        != right[18] || left[24] != right[24] || left[25] != right[25]);
}

} // verus!

//! What the driver hands back, and what the relay answers with.
//!
//! An answer is the JSON for the caller or one plain string that reports why
//! there is none. Every way a command can fail ends in such a report, also
//! the failure to render as JSON what the driver gave.

use crate::failure::Failure;
use crate::json::{all_render, document_to_json, documents_to_json, is_array_of};
use crate::json::{json_kind, json_of_document, json_of_documents, json_of_text, json_string};
use crate::json::{spelled, told, JsonKind};
use bson::Document;
use serde_json::Value;
use vstd::prelude::*;

verus! {

/// The answer to a command that yields JSON.
#[derive(Debug, PartialEq)]
pub enum Reply {
    /// The command succeeded, with this JSON for the caller.
    Payload(Value),
    /// The command failed, with this report for the caller.
    Error(String),
}

/// A [`Reply`] with its text as a sequence of characters.
pub enum ReplyView {
    Payload(Value),
    Error(Seq<char>),
}

impl View for Reply {
    type V = ReplyView;

    open spec fn view(&self) -> ReplyView {
        match self {
            Reply::Payload(value) => ReplyView::Payload(*value),
            Reply::Error(report) => ReplyView::Error(report@),
        }
    }
}

/// What the driver gave for a call that opens a cursor and reads it to the
/// end.
#[derive(Debug, PartialEq)]
pub enum Fetched {
    /// The call failed before any cursor was opened; the text is the
    /// driver's error.
    NotExecuted(String),
    /// The cursor was opened but failed before its end; the text is the
    /// driver's error.
    NotRead(String),
    /// Every document of the cursor, in the order the cursor gave them.
    Documents(Vec<Document>),
}

/// A [`Fetched`] with its text and its documents as sequences.
pub enum FetchedView {
    NotExecuted(Seq<char>),
    NotRead(Seq<char>),
    Documents(Seq<Document>),
}

impl View for Fetched {
    type V = FetchedView;

    open spec fn view(&self) -> FetchedView {
        match self {
            Fetched::NotExecuted(detail) => FetchedView::NotExecuted(detail@),
            Fetched::NotRead(detail) => FetchedView::NotRead(detail@),
            Fetched::Documents(documents) => FetchedView::Documents(documents@),
        }
    }
}

impl Reply {
    /// The reply that carries a rendering: the JSON where there is one, else
    /// the report that the results could not be rendered, with the
    /// renderer's error.
    pub open spec fn rendered(rendering: Result<Value, Seq<char>>) -> ReplyView {
        match rendering {
            Ok(value) => ReplyView::Payload(value),
            Err(detail) => ReplyView::Error(Failure::SerializeResults.report(detail)),
        }
    }

    /// The reply to a call that opens a cursor: the report of the step that
    /// failed, under the head given for that step, or the documents as one
    /// JSON array.
    pub open spec fn fetched(outcome: FetchedView, not_executed: Failure, not_read: Failure)
        -> ReplyView {
        match outcome {
            FetchedView::NotExecuted(detail) => ReplyView::Error(not_executed.report(detail)),
            FetchedView::NotRead(detail) => ReplyView::Error(not_read.report(detail)),
            FetchedView::Documents(documents) => Reply::rendered(
                told(documents_to_json(documents)),
            ),
        }
    }

    /// The reply to a call that fetches at most one document: the report of
    /// the failure, or the document as JSON, `null` where there is none.
    pub open spec fn found(outcome: Result<Option<Document>, Seq<char>>, failed: Failure)
        -> ReplyView {
        match outcome {
            Ok(document) => Reply::rendered(told(document_to_json(document))),
            Err(detail) => ReplyView::Error(failed.report(detail)),
        }
    }

    /// The reply to a call that only succeeds or fails: the JSON string
    /// `"success"`, or the report of the failure.
    pub open spec fn done(outcome: Result<(), Seq<char>>, failed: Failure) -> ReplyView {
        match outcome {
            Ok(_) => ReplyView::Payload(json_string("success"@)),
            Err(detail) => ReplyView::Error(failed.report(detail)),
        }
    }

    /// Whether the reply is the JSON string `"success"`.
    pub open spec fn is_success(self) -> bool {
        self@ == ReplyView::Payload(json_string("success"@))
    }

    /// The reply as the caller receives it: the JSON, or the report.
    pub open spec fn received(reply: ReplyView) -> Result<Value, Seq<char>> {
        match reply {
            ReplyView::Payload(value) => Ok(value),
            ReplyView::Error(report) => Err(report),
        }
    }

    /// Wraps a rendering: the JSON where there is one, else the report that
    /// the results could not be rendered, with the renderer's error.
    pub fn of_rendering(rendering: Result<Value, String>) -> (r: Reply)
        ensures
            r@ == Reply::rendered(spelled(rendering)),
            r is Payload <==> rendering is Ok,
    {
        match rendering {
            Ok(value) => Reply::Payload(value),
            Err(detail) => Reply::of_failure(Failure::SerializeResults, detail.as_str()),
        }
    }

    /// The report of `failed` with `detail`, as a reply.
    pub fn of_failure(failed: Failure, detail: &str) -> (r: Reply)
        ensures
            r@ == ReplyView::Error(failed.report(detail@)),
    {
        Reply::Error(failed.message(detail))
    }

    /// Answers a call that opens a cursor and reads it to the end. A failure
    /// is reported under `not_executed` or `not_read`, by the step that
    /// failed. Documents are answered as one JSON array with an item for
    /// each, in order, which for no documents is the empty array; where one
    /// of them has no JSON rendering, that is reported as a failure too.
    pub fn of_fetched(outcome: Fetched, not_executed: Failure, not_read: Failure) -> (r: Reply)
        ensures
            r@ == Reply::fetched(outcome@, not_executed, not_read),
            r is Payload <==> outcome is Documents && all_render(outcome->Documents_0@),
            r is Payload <==> outcome is Documents && documents_to_json(outcome->Documents_0@)
                is Ok,
            r matches Reply::Payload(value) ==> is_array_of(value, outcome->Documents_0@),
    {
        match outcome {
            Fetched::NotExecuted(detail) => Reply::of_failure(not_executed, detail.as_str()),
            Fetched::NotRead(detail) => Reply::of_failure(not_read, detail.as_str()),
            Fetched::Documents(documents) => Reply::of_rendering(json_of_documents(&documents)),
        }
    }

    /// Answers a call that fetches at most one document. A failure is
    /// reported under `failed`. A document is answered as a JSON object and
    /// the lack of one as JSON `null`; a document without a JSON rendering is
    /// reported as a failure.
    pub fn of_found(outcome: Result<Option<Document>, String>, failed: Failure) -> (r: Reply)
        ensures
            r@ == Reply::found(spelled(outcome), failed),
            r is Payload <==> outcome is Ok && document_to_json(outcome->Ok_0) is Ok,
            outcome matches Ok(None) ==> r is Payload,
            r matches Reply::Payload(value) ==> json_kind(value) == (if outcome matches Ok(None) {
                JsonKind::Null
            } else {
                JsonKind::Object
            }),
    {
        match outcome {
            Ok(document) => Reply::of_rendering(json_of_document(&document)),
            Err(detail) => Reply::of_failure(failed, detail.as_str()),
        }
    }

    /// Answers a call that only succeeds or fails: `"success"` where the
    /// driver succeeded, and the report under `failed` where it did not.
    pub fn of_done(outcome: Result<(), String>, failed: Failure) -> (r: Reply)
        ensures
            r@ == Reply::done(spelled(outcome), failed),
            r.is_success() <==> outcome is Ok,
            r matches Reply::Payload(value) ==> json_kind(value) == JsonKind::Text,
    {
        match outcome {
            Ok(_) => Reply::Payload(json_of_text("success")),
            Err(detail) => Reply::of_failure(failed, detail.as_str()),
        }
    }

    /// The reply in the shape the caller receives it: the JSON, or the
    /// report as the error.
    pub fn into_result(self) -> (r: Result<Value, String>)
        ensures
            spelled(r) == Reply::received(self@),
            r is Ok <==> self is Payload,
    {
        match self {
            Reply::Payload(value) => Ok(value),
            Reply::Error(report) => Err(report),
        }
    }
}

} // verus!

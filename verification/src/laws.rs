//! What holds of the relay as a whole, proved from the contracts of its
//! commands.

use crate::failure::Failure;
use crate::json::{document_to_json, documents_to_json, error_text, is_document_json};
use crate::json::{is_documents_json, json_string};
use crate::relay::{accessed, aggregate_planned, aggregate_replied, find_one_replied};
use crate::relay::{find_planned, find_replied, insert_many_planned, insert_many_replied};
use crate::relay::{insert_one_planned, insert_one_replied};
use crate::reply::{FetchedView, ReplyView};
use crate::request::{AggregateArgsView, FindArgsView, InsertManyArgsView, InsertOneArgsView};
use bson::Document;
use vstd::prelude::*;

verus! {

/// A well-formed filter is never refused, and `find` then answers the
/// documents that the driver gave with their JSON array wherever they have
/// one, however few they are.
pub proof fn find_answers_documents(args: FindArgsView, documents: Seq<Document>)
    requires
        is_document_json(args.query),
    ensures
        find_planned(args) is Ok,
        find_planned(args)->Ok_0.collection == args.collection,
        documents_to_json(documents) matches Ok(value) ==> find_replied(
            FetchedView::Documents(documents),
        ) == ReplyView::Payload(value),
{
}

/// Results that cannot be rendered as JSON are a failure like any other:
/// `find`, `findOne` and `aggregate` answer them with a report that carries
/// the renderer's error, and with nothing else.
pub proof fn unrenderable_results_are_reported(documents: Seq<Document>, found: Option<Document>)
    ensures
        documents_to_json(documents) matches Err(error) ==> find_replied(
            FetchedView::Documents(documents),
        ) == ReplyView::Error(Failure::SerializeResults.report(error_text(error))),
        documents_to_json(documents) matches Err(error) ==> aggregate_replied(
            FetchedView::Documents(documents),
        ) == ReplyView::Error(Failure::SerializeResults.report(error_text(error))),
        document_to_json(found) matches Err(error) ==> find_one_replied(Ok(found))
            == ReplyView::Error(Failure::SerializeResults.report(error_text(error))),
{
}

/// Malformed JSON in the query, the data or the pipeline of a request is
/// answered with a report, and leaves nothing for the driver to run.
pub proof fn malformed_json_is_refused(
    query: FindArgsView,
    one: InsertOneArgsView,
    many: InsertManyArgsView,
    pipeline: AggregateArgsView,
)
    ensures
        !is_document_json(query.query) ==> find_planned(query) is Err,
        !is_document_json(one.data) ==> insert_one_planned(one) is Err,
        !is_documents_json(many.data) ==> insert_many_planned(many) is Err,
        !is_documents_json(pipeline.pipeline) ==> aggregate_planned(pipeline) is Err,
{
}

/// `insertOne` and `insertMany` answer `"success"` if and only if the driver
/// reported no failure.
pub proof fn success_means_inserted(outcome: Result<(), Seq<char>>)
    ensures
        insert_one_replied(outcome) == ReplyView::Payload(json_string("success"@)) <==> outcome
            is Ok,
        insert_many_replied(outcome) == ReplyView::Payload(json_string("success"@)) <==> outcome
            is Ok,
{
}

/// Handing a handle through `accessDB` again gives what the first pass gave.
pub proof fn access_is_idempotent<H>(handle: H)
    ensures
        accessed(handle) == Ok::<H, Seq<char>>(handle),
        accessed(accessed(handle)->Ok_0) == accessed(handle),
{
}

} // verus!

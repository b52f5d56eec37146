//! The seven commands of the relay.
//!
//! A command that reaches the driver is answered in two steps. The first
//! parses the request and yields the call for the driver to run, or the
//! report that the request was refused. The second takes what the driver
//! gave and yields the reply. Running the call lies between the two and is
//! the caller's part: nothing here waits on the network.

use crate::call::{planned, Aggregation, AggregationView, Batch, BatchView};
use crate::call::{Insertion, InsertionView, Query, QueryView};
use crate::failure::Failure;
use crate::json::{document_from_json, documents_from_json, is_document_json, is_documents_json};
use crate::json::{all_render, document_of, document_to_json, documents_of, documents_to_json};
use crate::json::{is_array_of, json_kind, spelled, told, JsonKind};
use crate::reply::{Fetched, FetchedView, Reply, ReplyView};
use crate::request::{AggregateArgs, AggregateArgsView, FindArgs, FindArgsView};
use crate::request::{InsertManyArgs, InsertManyArgsView, InsertOneArgs, InsertOneArgsView};
use bson::Document;
use vstd::prelude::*;

verus! {

/// What `connectDBServer` answers: the handle, or the report that the server
/// could not be reached.
pub open spec fn connect_replied<H>(outcome: Result<H, Seq<char>>) -> Result<H, Seq<char>> {
    match outcome {
        Ok(handle) => Ok(handle),
        Err(detail) => Err(Failure::Connect.report(detail)),
    }
}

/// What `accessDB` answers: the handle it was given.
pub open spec fn accessed<H>(handle: H) -> Result<H, Seq<char>> {
    Ok(handle)
}

/// What `find` and `findOne` hand to the driver.
pub open spec fn find_planned(args: FindArgsView) -> Result<QueryView, Seq<char>> {
    Query::planned(args.collection, told(document_from_json(args.query)))
}

/// What `insertOne` hands to the driver.
pub open spec fn insert_one_planned(args: InsertOneArgsView) -> Result<InsertionView, Seq<char>> {
    Insertion::planned(args.collection, told(document_from_json(args.data)))
}

/// What `insertMany` hands to the driver.
pub open spec fn insert_many_planned(args: InsertManyArgsView) -> Result<BatchView, Seq<char>> {
    Batch::planned(args.collection, told(documents_from_json(args.data)))
}

/// What `aggregate` hands to the driver.
pub open spec fn aggregate_planned(args: AggregateArgsView) -> Result<AggregationView, Seq<char>> {
    Aggregation::planned(args.collection, told(documents_from_json(args.pipeline)))
}

/// What `find` answers.
pub open spec fn find_replied(outcome: FetchedView) -> ReplyView {
    Reply::fetched(outcome, Failure::ExecuteQuery, Failure::ReadResults)
}

/// What `findOne` answers.
pub open spec fn find_one_replied(outcome: Result<Option<Document>, Seq<char>>) -> ReplyView {
    Reply::found(outcome, Failure::ExecuteQuery)
}

/// What `insertOne` answers.
pub open spec fn insert_one_replied(outcome: Result<(), Seq<char>>) -> ReplyView {
    Reply::done(outcome, Failure::InsertDocument)
}

/// What `insertMany` answers.
pub open spec fn insert_many_replied(outcome: Result<(), Seq<char>>) -> ReplyView {
    Reply::done(outcome, Failure::InsertDocuments)
}

/// What `aggregate` answers.
pub open spec fn aggregate_replied(outcome: FetchedView) -> ReplyView {
    Reply::fetched(outcome, Failure::ExecuteAggregation, Failure::ReadAggregation)
}

/// Answers `connectDBServer` from what the driver gave: the handle of the
/// database, or the report that the server could not be reached. `outcome`
/// holds the handle, or the text of the driver's error.
pub fn connect_reply<H>(outcome: Result<H, String>) -> (r: Result<H, String>)
    ensures
        spelled(r) == connect_replied(spelled(outcome)),
{
    match outcome {
        Ok(handle) => Ok(handle),
        Err(detail) => Err(Failure::Connect.message(detail.as_str())),
    }
}

/// Answers `accessDB`: the handle comes back as it was given. The command
/// cannot fail.
pub fn access_db<H>(handle: H) -> (r: Result<H, String>)
    ensures
        spelled(r) == accessed(handle),
{
    Ok(handle)
}

/// Plans `find`: the search to run, or, where the filter is not the JSON of
/// a document, the report of that and nothing to run.
pub fn find(args: FindArgs) -> (r: Result<Query, String>)
    ensures
        planned(r) == find_planned(args@),
        r is Ok <==> is_document_json(args.query@),
{
    let parsed = document_of(args.query.as_str());
    Query::plan(args.collection, parsed)
}

/// Plans `findOne`: as [`find`] does, for a search that stops at the first
/// match.
pub fn find_one(args: FindArgs) -> (r: Result<Query, String>)
    ensures
        planned(r) == find_planned(args@),
        r is Ok <==> is_document_json(args.query@),
{
    find(args)
}

/// Plans `insertOne`: the insertion to run, or, where the data is not the
/// JSON of a document, the report of that and nothing to run.
pub fn insert_one(args: InsertOneArgs) -> (r: Result<Insertion, String>)
    ensures
        planned(r) == insert_one_planned(args@),
        r is Ok <==> is_document_json(args.data@),
{
    let parsed = document_of(args.data.as_str());
    Insertion::plan(args.collection, parsed)
}

/// Plans `insertMany`: the batch to insert, or, where the data is not the
/// JSON of an array of documents, the report of that and nothing to run.
pub fn insert_many(args: InsertManyArgs) -> (r: Result<Batch, String>)
    ensures
        planned(r) == insert_many_planned(args@),
        r is Ok <==> is_documents_json(args.data@),
{
    let parsed = documents_of(args.data.as_str());
    Batch::plan(args.collection, parsed)
}

/// Plans `aggregate`: the aggregation to run, or, where the pipeline is not
/// the JSON of an array of stages, the report of that and nothing to run.
pub fn aggregate(args: AggregateArgs) -> (r: Result<Aggregation, String>)
    ensures
        planned(r) == aggregate_planned(args@),
        r is Ok <==> is_documents_json(args.pipeline@),
{
    let parsed = documents_of(args.pipeline.as_str());
    Aggregation::plan(args.collection, parsed)
}

/// Answers `find` from what the driver gave: the matching documents as one
/// JSON array, empty where nothing matched, or the report of the step that
/// failed. Documents that cannot be rendered as JSON are a failure of their
/// own, reported like the others.
pub fn find_reply(outcome: Fetched) -> (r: Reply)
    ensures
        r@ == find_replied(outcome@),
        r is Payload <==> outcome is Documents && all_render(outcome->Documents_0@),
        r is Payload <==> outcome is Documents && documents_to_json(outcome->Documents_0@) is Ok,
        r matches Reply::Payload(value) ==> is_array_of(value, outcome->Documents_0@),
{
    Reply::of_fetched(outcome, Failure::ExecuteQuery, Failure::ReadResults)
}

/// Answers `findOne` from what the driver gave: the first match as a JSON
/// object, `null` where nothing matched, or the report that the query
/// failed or that the match could not be rendered as JSON.
pub fn find_one_reply(outcome: Result<Option<Document>, String>) -> (r: Reply)
    ensures
        r@ == find_one_replied(spelled(outcome)),
        r is Payload <==> outcome is Ok && document_to_json(outcome->Ok_0) is Ok,
        outcome matches Ok(None) ==> r is Payload,
        r matches Reply::Payload(value) ==> json_kind(value) == (if outcome matches Ok(None) {
            JsonKind::Null
        } else {
            JsonKind::Object
        }),
{
    Reply::of_found(outcome, Failure::ExecuteQuery)
}

/// Answers `insertOne` from what the driver gave: `"success"` where the
/// document was inserted, else the report that it was not.
pub fn insert_one_reply(outcome: Result<(), String>) -> (r: Reply)
    ensures
        r@ == insert_one_replied(spelled(outcome)),
        r.is_success() <==> outcome is Ok,
        r matches Reply::Payload(value) ==> json_kind(value) == JsonKind::Text,
{
    Reply::of_done(outcome, Failure::InsertDocument)
}

/// Answers `insertMany` from what the driver gave: `"success"` where the
/// whole batch was inserted, else the report that it was not. A batch that
/// failed in part is a batch that failed.
pub fn insert_many_reply(outcome: Result<(), String>) -> (r: Reply)
    ensures
        r@ == insert_many_replied(spelled(outcome)),
        r.is_success() <==> outcome is Ok,
        r matches Reply::Payload(value) ==> json_kind(value) == JsonKind::Text,
{
    Reply::of_done(outcome, Failure::InsertDocuments)
}

/// Answers `aggregate` from what the driver gave: what the pipeline yielded
/// as one JSON array, or the report of the step that failed, the rendering
/// as JSON among them.
pub fn aggregate_reply(outcome: Fetched) -> (r: Reply)
    ensures
        r@ == aggregate_replied(outcome@),
        r is Payload <==> outcome is Documents && all_render(outcome->Documents_0@),
        r is Payload <==> outcome is Documents && documents_to_json(outcome->Documents_0@) is Ok,
        r matches Reply::Payload(value) ==> is_array_of(value, outcome->Documents_0@),
{
    Reply::of_fetched(outcome, Failure::ExecuteAggregation, Failure::ReadAggregation)
}

} // verus!

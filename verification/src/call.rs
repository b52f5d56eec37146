//! What the relay hands to the driver once a request has been parsed.
//!
//! A call exists only where the JSON of the request was well formed: a
//! request whose JSON is refused yields the report of the failure instead,
//! and nothing for the driver to run.

use crate::failure::Failure;
use crate::json::{spelled, spelled_list};
use bson::Document;
use vstd::prelude::*;

verus! {

/// A search for `find` or `findOne` to run.
#[derive(Debug, PartialEq)]
pub struct Query {
    /// The collection to search.
    pub collection: String,
    /// The filter that a document has to match.
    pub filter: Document,
}

/// A [`Query`] with its text as a sequence of characters.
pub struct QueryView {
    pub collection: Seq<char>,
    pub filter: Document,
}

impl View for Query {
    type V = QueryView;

    open spec fn view(&self) -> QueryView {
        QueryView { collection: self.collection@, filter: self.filter }
    }
}

/// One document for `insertOne` to insert.
#[derive(Debug, PartialEq)]
pub struct Insertion {
    /// The collection to insert into.
    pub collection: String,
    /// The document to insert.
    pub document: Document,
}

/// An [`Insertion`] with its text as a sequence of characters.
pub struct InsertionView {
    pub collection: Seq<char>,
    pub document: Document,
}

impl View for Insertion {
    type V = InsertionView;

    open spec fn view(&self) -> InsertionView {
        InsertionView { collection: self.collection@, document: self.document }
    }
}

/// The documents for `insertMany` to insert, in the order they were given.
#[derive(Debug, PartialEq)]
pub struct Batch {
    /// The collection to insert into.
    pub collection: String,
    /// The documents to insert.
    pub documents: Vec<Document>,
}

/// A [`Batch`] with its text and its documents as sequences.
pub struct BatchView {
    pub collection: Seq<char>,
    pub documents: Seq<Document>,
}

impl View for Batch {
    type V = BatchView;

    open spec fn view(&self) -> BatchView {
        BatchView { collection: self.collection@, documents: self.documents@ }
    }
}

/// The stages for `aggregate` to run, in the order they were given.
#[derive(Debug, PartialEq)]
pub struct Aggregation {
    /// The collection to aggregate over.
    pub collection: String,
    /// The stages of the pipeline.
    pub pipeline: Vec<Document>,
}

/// An [`Aggregation`] with its text and its stages as sequences.
pub struct AggregationView {
    pub collection: Seq<char>,
    pub pipeline: Seq<Document>,
}

impl View for Aggregation {
    type V = AggregationView;

    open spec fn view(&self) -> AggregationView {
        AggregationView { collection: self.collection@, pipeline: self.pipeline@ }
    }
}

/// A plan, seen through the view of its call and the characters of its
/// report.
pub open spec fn planned<C: View>(plan: Result<C, String>) -> Result<C::V, Seq<char>> {
    match plan {
        Ok(call) => Ok(call@),
        Err(report) => Err(report@),
    }
}

impl Query {
    /// The search over `collection` with the parsed filter, or the report
    /// that the filter could not be parsed.
    pub open spec fn planned(collection: Seq<char>, parsed: Result<Document, Seq<char>>) -> Result<
        QueryView,
        Seq<char>,
    > {
        match parsed {
            Ok(filter) => Ok(QueryView { collection, filter }),
            Err(detail) => Err(Failure::ParseQuery.report(detail)),
        }
    }

    /// Plans a search from the outcome of parsing its filter.
    pub fn plan(collection: String, parsed: Result<Document, String>) -> (r: Result<Query, String>)
        ensures
            planned(r) == Query::planned(collection@, spelled(parsed)),
    {
        match parsed {
            Ok(filter) => Ok(Query { collection, filter }),
            Err(detail) => Err(Failure::ParseQuery.message(detail.as_str())),
        }
    }
}

impl Insertion {
    /// The insertion of the parsed document into `collection`, or the report
    /// that the document could not be parsed.
    pub open spec fn planned(collection: Seq<char>, parsed: Result<Document, Seq<char>>) -> Result<
        InsertionView,
        Seq<char>,
    > {
        match parsed {
            Ok(document) => Ok(InsertionView { collection, document }),
            Err(detail) => Err(Failure::ParseDocument.report(detail)),
        }
    }

    /// Plans an insertion from the outcome of parsing its document.
    pub fn plan(collection: String, parsed: Result<Document, String>) -> (r: Result<
        Insertion,
        String,
    >)
        ensures
            planned(r) == Insertion::planned(collection@, spelled(parsed)),
    {
        match parsed {
            Ok(document) => Ok(Insertion { collection, document }),
            Err(detail) => Err(Failure::ParseDocument.message(detail.as_str())),
        }
    }
}

impl Batch {
    /// The insertion of the parsed documents into `collection`, or the
    /// report that they could not be parsed.
    pub open spec fn planned(
        collection: Seq<char>,
        parsed: Result<Seq<Document>, Seq<char>>,
    ) -> Result<BatchView, Seq<char>> {
        match parsed {
            Ok(documents) => Ok(BatchView { collection, documents }),
            Err(detail) => Err(Failure::ParseDocuments.report(detail)),
        }
    }

    /// Plans the insertion of a batch from the outcome of parsing it.
    pub fn plan(collection: String, parsed: Result<Vec<Document>, String>) -> (r: Result<
        Batch,
        String,
    >)
        ensures
            planned(r) == Batch::planned(collection@, spelled_list(parsed)),
    {
        match parsed {
            Ok(documents) => Ok(Batch { collection, documents }),
            Err(detail) => Err(Failure::ParseDocuments.message(detail.as_str())),
        }
    }
}

impl Aggregation {
    /// The aggregation over `collection` with the parsed stages, or the
    /// report that the pipeline could not be parsed.
    pub open spec fn planned(
        collection: Seq<char>,
        parsed: Result<Seq<Document>, Seq<char>>,
    ) -> Result<AggregationView, Seq<char>> {
        match parsed {
            Ok(pipeline) => Ok(AggregationView { collection, pipeline }),
            Err(detail) => Err(Failure::ParsePipeline.report(detail)),
        }
    }

    /// Plans an aggregation from the outcome of parsing its pipeline.
    pub fn plan(collection: String, parsed: Result<Vec<Document>, String>) -> (r: Result<
        Aggregation,
        String,
    >)
        ensures
            planned(r) == Aggregation::planned(collection@, spelled_list(parsed)),
    {
        match parsed {
            Ok(pipeline) => Ok(Aggregation { collection, pipeline }),
            Err(detail) => Err(Failure::ParsePipeline.message(detail.as_str())),
        }
    }
}

} // verus!

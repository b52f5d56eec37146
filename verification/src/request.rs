//! What a caller sends with a command.
//!
//! Queries, documents and pipelines arrive as JSON text inside these
//! requests; the relay parses them before anything is handed to the driver.

use vstd::prelude::*;

verus! {

/// The server and the database that `connectDBServer` is to open.
#[derive(Clone, Debug, PartialEq, Eq)]
pub struct DBInfo {
    /// The address of the server.
    pub server: String,
    /// The name of the database.
    pub database: String,
}

/// A [`DBInfo`] as plain text.
pub struct DBInfoView {
    pub server: Seq<char>,
    pub database: Seq<char>,
}

impl View for DBInfo {
    type V = DBInfoView;

    open spec fn view(&self) -> DBInfoView {
        DBInfoView { server: self.server@, database: self.database@ }
    }
}

/// The request of `find` and of `findOne`.
#[derive(Clone, Debug, PartialEq, Eq)]
pub struct FindArgs {
    /// The collection to search.
    pub collection: String,
    /// The filter, as the JSON of one document.
    pub query: String,
}

/// A [`FindArgs`] as plain text.
pub struct FindArgsView {
    pub collection: Seq<char>,
    pub query: Seq<char>,
}

impl View for FindArgs {
    type V = FindArgsView;

    open spec fn view(&self) -> FindArgsView {
        FindArgsView { collection: self.collection@, query: self.query@ }
    }
}

/// The request of `insertOne`.
#[derive(Clone, Debug, PartialEq, Eq)]
pub struct InsertOneArgs {
    /// The collection to insert into.
    pub collection: String,
    /// The document, as JSON.
    pub data: String,
}

/// An [`InsertOneArgs`] as plain text.
pub struct InsertOneArgsView {
    pub collection: Seq<char>,
    pub data: Seq<char>,
}

impl View for InsertOneArgs {
    type V = InsertOneArgsView;

    open spec fn view(&self) -> InsertOneArgsView {
        InsertOneArgsView { collection: self.collection@, data: self.data@ }
    }
}

/// The request of `insertMany`.
#[derive(Clone, Debug, PartialEq, Eq)]
pub struct InsertManyArgs {
    /// The collection to insert into.
    pub collection: String,
    /// The documents, as the JSON of an array.
    pub data: String,
}

/// An [`InsertManyArgs`] as plain text.
pub struct InsertManyArgsView {
    pub collection: Seq<char>,
    pub data: Seq<char>,
}

impl View for InsertManyArgs {
    type V = InsertManyArgsView;

    open spec fn view(&self) -> InsertManyArgsView {
        InsertManyArgsView { collection: self.collection@, data: self.data@ }
    }
}

/// The request of `aggregate`.
#[derive(Clone, Debug, PartialEq, Eq)]
pub struct AggregateArgs {
    /// The collection to aggregate over.
    pub collection: String,
    /// The stages, as the JSON of an array.
    pub pipeline: String,
}

/// An [`AggregateArgs`] as plain text.
pub struct AggregateArgsView {
    pub collection: Seq<char>,
    pub pipeline: Seq<char>,
}

impl View for AggregateArgs {
    type V = AggregateArgsView;

    open spec fn view(&self) -> AggregateArgsView {
        AggregateArgsView { collection: self.collection@, pipeline: self.pipeline@ }
    }
}

} // verus!

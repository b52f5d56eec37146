//! The boundary to `serde_json` and `bson`.
//!
//! Documents, JSON values and JSON errors are carried through the relay as
//! opaque values. What the two crates compute from them is named here, and
//! each wrapper states that its call returns what the name stands for. None
//! of these statements is proved: they rest on the crates' sources.

use bson::Document;
use serde_json::Value;
use vstd::prelude::*;
use vstd::string::*;

verus! {

/// A BSON document, `bson::Document`: an ordered map from keys to BSON values.
#[verifier::external_type_specification]
#[verifier::external_body]
pub struct ExDocument(bson::Document);

/// A JSON value, `serde_json::Value`.
#[verifier::external_type_specification]
#[verifier::external_body]
pub struct ExValue(serde_json::Value);

/// The error of `serde_json`, for parsing and for rendering.
#[verifier::external_type_specification]
#[verifier::external_body]
pub struct ExJsonError(serde_json::Error);

/// What `serde_json::from_str::<bson::Document>` returns for `text`: the
/// document that the text denotes, or the reason why it denotes none.
pub uninterp spec fn document_from_json(text: Seq<char>) -> Result<Document, serde_json::Error>;

/// What `serde_json::from_str::<Vec<bson::Document>>` returns for `text`: the
/// documents of the JSON array that the text denotes, in order, or the reason
/// why it denotes none.
pub uninterp spec fn documents_from_json(text: Seq<char>) -> Result<
    Seq<Document>,
    serde_json::Error,
>;

/// The text that `serde_json::Error` displays as.
pub uninterp spec fn error_text(error: serde_json::Error) -> Seq<char>;

/// What `serde_json::to_value` returns for a list of documents.
pub uninterp spec fn documents_to_json(documents: Seq<Document>) -> Result<
    Value,
    serde_json::Error,
>;

/// What `serde_json::to_value` returns for a document that may be absent.
pub uninterp spec fn document_to_json(document: Option<Document>) -> Result<
    Value,
    serde_json::Error,
>;

/// The JSON string that holds `text`: what `serde_json::to_value` makes of a
/// string slice.
pub uninterp spec fn json_string(text: Seq<char>) -> Value;

/// The kinds of JSON value.
#[derive(Clone, Copy, Debug, PartialEq, Eq, Structural)]
pub enum JsonKind {
    Null,
    Boolean,
    Number,
    Text,
    Array,
    Object,
}

/// The kind of `value`: which variant of `serde_json::Value` it is.
pub uninterp spec fn json_kind(value: Value) -> JsonKind;

/// The items of a JSON array, in order: what `serde_json::Value::as_array`
/// holds for it. Of a value of another kind it says nothing.
pub uninterp spec fn json_items(value: Value) -> Seq<Value>;

/// What `serde_json::to_value` returns for one document.
pub open spec fn one_to_json(document: Document) -> Result<Value, serde_json::Error> {
    document_to_json(Some(document))
}

/// Whether every document of the list has a rendering.
pub open spec fn all_render(documents: Seq<Document>) -> bool {
    forall|i: int| 0 <= i < documents.len() ==> (#[trigger] one_to_json(documents[i])) is Ok
}

/// Whether `value` is the JSON array of the renderings of `documents`, one
/// item for each document, in the same order.
pub open spec fn is_array_of(value: Value, documents: Seq<Document>) -> bool {
    &&& json_kind(value) == JsonKind::Array
    &&& json_items(value).len() == documents.len()
    &&& forall|i: int|
        0 <= i < documents.len() ==> (#[trigger] one_to_json(documents[i])) == Ok::<
            Value,
            serde_json::Error,
        >(json_items(value)[i])
}

/// Whether `text` is the JSON of one document.
pub open spec fn is_document_json(text: Seq<char>) -> bool {
    document_from_json(text) is Ok
}

/// Whether `text` is the JSON of an array of documents.
pub open spec fn is_documents_json(text: Seq<char>) -> bool {
    documents_from_json(text) is Ok
}

/// A parsed list with the vector seen as a sequence.
pub open spec fn listed(parsed: Result<Vec<Document>, serde_json::Error>) -> Result<
    Seq<Document>,
    serde_json::Error,
> {
    match parsed {
        Ok(documents) => Ok(documents@),
        Err(error) => Err(error),
    }
}

/// Calls `serde_json::from_str` for a `bson::Document`. Trusted: the result is
/// what [`document_from_json`] names for the same text, so parsing a text
/// twice gives the same outcome.
#[verifier::external_body]
pub(crate) fn parse_document(text: &str) -> (r: Result<Document, serde_json::Error>)
    ensures
        r == document_from_json(text@),
{
    serde_json::from_str::<Document>(text)
}

/// Calls `serde_json::from_str` for a `Vec<bson::Document>`. Trusted: the
/// result, as a sequence, is what [`documents_from_json`] names for the same
/// text.
#[verifier::external_body]
pub(crate) fn parse_documents(text: &str) -> (r: Result<Vec<Document>, serde_json::Error>)
    ensures
        listed(r) == documents_from_json(text@),
{
    serde_json::from_str::<Vec<Document>>(text)
}

/// Formats a `serde_json::Error` through its `Display` impl. Trusted: the
/// text depends on the error alone, and is what [`error_text`] names.
#[verifier::external_body]
pub(crate) fn describe(error: &serde_json::Error) -> (r: String)
    ensures
        r@ == error_text(*error),
{
    error.to_string()
}

/// Calls `serde_json::to_value` on a list of documents. Trusted: the result
/// is what [`documents_to_json`] names. A sequence is rendered element by
/// element, each as `to_value` renders it alone, and the renderings are
/// pushed in order into one `Value::Array`; the first element without a
/// rendering ends the call with its error. So the call succeeds exactly
/// where every document has a rendering, and a success is the array of
/// those renderings.
#[verifier::external_body]
pub(crate) fn render_documents(documents: &Vec<Document>) -> (r: Result<Value, serde_json::Error>)
    ensures
        r == documents_to_json(documents@),
        r is Ok <==> all_render(documents@),
        r matches Ok(value) ==> json_items(value).len() == documents@.len(),
        r matches Ok(value) ==> is_array_of(value, documents@),
{
    serde_json::to_value(documents)
}

/// Calls `serde_json::to_value` on a document that may be absent. Trusted:
/// the result is what [`document_to_json`] names; an absent document is
/// rendered as `Value::Null` and cannot fail, and a document that is there
/// is rendered, where it can be, as a map, which ends as `Value::Object`.
#[verifier::external_body]
pub(crate) fn render_document(document: &Option<Document>) -> (r: Result<Value, serde_json::Error>)
    ensures
        r == document_to_json(*document),
        document is None ==> r is Ok,
        r matches Ok(value) ==> (document is None ==> json_kind(value) == JsonKind::Null),
        r matches Ok(value) ==> (document is Some ==> json_kind(value) == JsonKind::Object),
{
    serde_json::to_value(document)
}

/// Calls `serde_json::to_value` on a string slice. Trusted: the call always
/// succeeds, with `Value::String` of the same text, which [`json_string`]
/// names.
#[verifier::external_body]
pub(crate) fn render_text(text: &str) -> (r: Result<Value, serde_json::Error>)
    ensures
        r is Ok,
        r matches Ok(value) ==> value == json_string(text@),
        r matches Ok(value) ==> json_kind(value) == JsonKind::Text,
{
    serde_json::to_value(text)
}

/// A parse or a rendering whose error, if any, is replaced by its text.
pub open spec fn told<T>(outcome: Result<T, serde_json::Error>) -> Result<T, Seq<char>> {
    match outcome {
        Ok(value) => Ok(value),
        Err(error) => Err(error_text(error)),
    }
}

/// An outcome with its error text seen as a sequence of characters.
pub open spec fn spelled<T>(outcome: Result<T, String>) -> Result<T, Seq<char>> {
    match outcome {
        Ok(value) => Ok(value),
        Err(text) => Err(text@),
    }
}

/// An outcome whose vector and error text are both seen as sequences.
pub open spec fn spelled_list(outcome: Result<Vec<Document>, String>) -> Result<
    Seq<Document>,
    Seq<char>,
> {
    match outcome {
        Ok(documents) => Ok(documents@),
        Err(text) => Err(text@),
    }
}

/// Parses `text` as the JSON of one document: the document, or the text of
/// the parser's error.
pub fn document_of(text: &str) -> (r: Result<Document, String>)
    ensures
        spelled(r) == told(document_from_json(text@)),
        r is Ok <==> is_document_json(text@),
{
    match parse_document(text) {
        Ok(document) => Ok(document),
        Err(error) => Err(describe(&error)),
    }
}

/// Parses `text` as the JSON of an array of documents: the documents in
/// order, or the text of the parser's error.
pub fn documents_of(text: &str) -> (r: Result<Vec<Document>, String>)
    ensures
        spelled_list(r) == told(documents_from_json(text@)),
        r is Ok <==> is_documents_json(text@),
{
    match parse_documents(text) {
        Ok(documents) => Ok(documents),
        Err(error) => Err(describe(&error)),
    }
}

/// Renders a list of documents as a JSON array with one item for each
/// document, in order: the array, or the text of the renderer's error. The
/// list is rendered exactly where each of its documents is, so an empty list
/// always is.
pub fn json_of_documents(documents: &Vec<Document>) -> (r: Result<Value, String>)
    ensures
        spelled(r) == told(documents_to_json(documents@)),
        r is Ok <==> all_render(documents@),
        r matches Ok(value) ==> is_array_of(value, documents@),
        documents@.len() == 0 ==> r is Ok,
{
    match render_documents(documents) {
        Ok(value) => Ok(value),
        Err(error) => Err(describe(&error)),
    }
}

/// Renders a document as JSON, and an absent one as JSON `null`: the value,
/// or the text of the renderer's error. An absent document is always
/// rendered.
pub fn json_of_document(document: &Option<Document>) -> (r: Result<Value, String>)
    ensures
        spelled(r) == told(document_to_json(*document)),
        document is None ==> r is Ok,
        r matches Ok(value) ==> json_kind(value) == (if document is None {
            JsonKind::Null
        } else {
            JsonKind::Object
        }),
{
    match render_document(document) {
        Ok(value) => Ok(value),
        Err(error) => Err(describe(&error)),
    }
}

/// The JSON string that holds `text`.
pub fn json_of_text(text: &str) -> (r: Value)
    ensures
        r == json_string(text@),
        json_kind(r) == JsonKind::Text,
{
    match render_text(text) {
        Ok(value) => value,
        Err(_) => unreached(),
    }
}

} // verus!

use bson::{Bson, Document};
use mongo_relay::call::{Aggregation, Batch, Insertion, Query};
use mongo_relay::command::Command;
use mongo_relay::failure::Failure;
use mongo_relay::plugin::MongoPlugin;
use mongo_relay::relay::{access_db, aggregate, connect_reply, find, find_one, insert_many};
use mongo_relay::relay::{aggregate_reply, find_one_reply, find_reply, insert_many_reply};
use mongo_relay::relay::{insert_one, insert_one_reply};
use mongo_relay::reply::{Fetched, Reply};
use mongo_relay::request::{AggregateArgs, FindArgs, InsertManyArgs, InsertOneArgs};
use mongo_relay::text::{message, same_text};
use serde_json::{Number, Value};

fn find_args(query: &str) -> FindArgs {
    FindArgs { collection: "users".to_string(), query: query.to_string() }
}

fn named(name: &str) -> Document {
    let mut document = Document::new();
    document.insert("name", Bson::String(name.to_string()));
    document
}

fn named_json(name: &str) -> Value {
    let mut object = serde_json::Map::new();
    object.insert("name".to_string(), Value::String(name.to_string()));
    Value::Object(object)
}

fn parse_error(text: &str) -> String {
    serde_json::from_str::<Document>(text).unwrap_err().to_string()
}

fn list_error(text: &str) -> String {
    serde_json::from_str::<Vec<Document>>(text).unwrap_err().to_string()
}

#[test]
fn plugin_is_named_mongo() {
    assert_eq!(MongoPlugin.name(), "mongo");
}

#[test]
fn every_command_is_found_by_its_name() {
    let all = [
        (Command::ConnectDbServer, "connectDBServer"),
        (Command::AccessDb, "accessDB"),
        (Command::Find, "find"),
        (Command::FindOne, "findOne"),
        (Command::InsertOne, "insertOne"),
        (Command::InsertMany, "insertMany"),
        (Command::Aggregate, "aggregate"),
    ];
    for (command, name) in all {
        assert_eq!(command.name(), name);
        assert_eq!(Command::from_name(name), Some(command));
        assert_eq!(MongoPlugin.command(name), Some(command));
    }
}

#[test]
fn unknown_names_invoke_nothing() {
    assert_eq!(Command::from_name(""), None);
    assert_eq!(Command::from_name("Find"), None);
    assert_eq!(Command::from_name("findone"), None);
    assert_eq!(Command::from_name("find "), None);
    assert_eq!(Command::from_name("findOneAndDelete"), None);
    assert_eq!(MongoPlugin.command("drop"), None);
}

#[test]
fn same_text_compares_every_byte() {
    assert!(same_text("", ""));
    assert!(same_text("find", "find"));
    assert!(!same_text("find", "fine"));
    assert!(!same_text("find", "findOne"));
    assert!(same_text("caf\u{e9}", "caf\u{e9}"));
    assert!(!same_text("caf\u{e9}", "cafe"));
}

#[test]
fn message_joins_head_and_detail() {
    assert_eq!(message("Failed to connect: ", "refused"), "Failed to connect: refused");
    assert_eq!(message("", ""), "");
}

#[test]
fn each_failure_has_its_own_head() {
    let all = [
        (Failure::Connect, "Failed to connect: "),
        (Failure::ParseQuery, "Failed to parse query: "),
        (Failure::ExecuteQuery, "Failed to execute query: "),
        (Failure::ReadResults, "Failed to read results: "),
        (Failure::ParseDocument, "Failed to parse document: "),
        (Failure::InsertDocument, "Failed to insert document: "),
        (Failure::ParseDocuments, "Failed to parse documents: "),
        (Failure::InsertDocuments, "Failed to insert documents: "),
        (Failure::ParsePipeline, "Failed to parse pipeline: "),
        (Failure::ExecuteAggregation, "Failed to execute aggregation: "),
        (Failure::ReadAggregation, "Failed to read aggregation results: "),
        (Failure::SerializeResults, "Failed to serialize results: "),
    ];
    for (failure, head) in all {
        assert_eq!(failure.prefix(), head);
        assert_eq!(failure.message("x"), format!("{}x", head));
    }
    for (i, (a, _)) in all.iter().enumerate() {
        for (j, (b, _)) in all.iter().enumerate() {
            if i != j {
                assert_ne!(a.message("same"), b.message("same"));
                assert_ne!(a.message(""), b.message("s: "));
            }
        }
    }
}

#[test]
fn connect_hands_the_handle_on() {
    assert_eq!(connect_reply::<u32>(Ok(7)), Ok(7));
}

#[test]
fn connect_reports_the_driver_error() {
    assert_eq!(
        connect_reply::<u32>(Err("no route to host".to_string())),
        Err("Failed to connect: no route to host".to_string())
    );
}

#[test]
fn access_db_returns_the_handle_it_was_given() {
    assert_eq!(access_db("handle"), Ok("handle"));
    let once = access_db(41u64).unwrap();
    assert_eq!(access_db(once), access_db(41u64));
}

#[test]
fn find_with_empty_filter_is_planned() {
    let planned = find(find_args("{}"));
    assert_eq!(planned, Ok(Query { collection: "users".to_string(), filter: Document::new() }));
}

#[test]
fn find_carries_the_parsed_filter() {
    let planned = find(find_args("{\"name\":\"a\"}")).unwrap();
    assert_eq!(planned.collection, "users");
    assert_eq!(planned.filter, named("a"));
}

#[test]
fn find_on_empty_collection_returns_empty_array() {
    assert!(find(find_args("{}")).is_ok());
    let reply = find_reply(Fetched::Documents(vec![]));
    assert_eq!(reply, Reply::Payload(Value::Array(vec![])));
    assert_eq!(reply.into_result(), Ok(Value::Array(vec![])));
}

#[test]
fn find_with_invalid_filter_reports_parse_failure() {
    let planned = find(find_args("{invalid"));
    let expected = format!("Failed to parse query: {}", parse_error("{invalid"));
    assert_eq!(planned, Err(expected));
    assert!(planned.unwrap_err().starts_with("Failed to parse query: key must be a string"));
}

#[test]
fn find_refuses_json_that_is_no_document() {
    for text in ["", "[]", "42", "\"text\"", "null", "{} {}", "{\"a\":1}x"] {
        let expected = format!("Failed to parse query: {}", parse_error(text));
        assert_eq!(find(find_args(text)), Err(expected.clone()));
        assert_eq!(find_one(find_args(text)), Err(expected));
    }
}

#[test]
fn find_one_plans_as_find_does() {
    assert_eq!(find_one(find_args("{\"name\":\"a\"}")), find(find_args("{\"name\":\"a\"}")));
}

#[test]
fn find_answers_documents_as_array_in_order() {
    let reply = find_reply(Fetched::Documents(vec![named("a"), named("b")]));
    assert_eq!(reply, Reply::Payload(Value::Array(vec![named_json("a"), named_json("b")])));
}

#[test]
fn find_renders_numbers_and_nesting() {
    let mut inner = Document::new();
    inner.insert("n", Bson::Int32(3));
    let mut outer = Document::new();
    outer.insert("inner", Bson::Document(inner));
    outer.insert("flag", Bson::Boolean(true));
    let mut inner_json = serde_json::Map::new();
    inner_json.insert("n".to_string(), Value::Number(Number::from(3)));
    let mut outer_json = serde_json::Map::new();
    outer_json.insert("inner".to_string(), Value::Object(inner_json));
    outer_json.insert("flag".to_string(), Value::Bool(true));
    let reply = find_reply(Fetched::Documents(vec![outer]));
    assert_eq!(reply, Reply::Payload(Value::Array(vec![Value::Object(outer_json)])));
}

#[test]
fn find_reports_the_step_that_failed() {
    assert_eq!(
        find_reply(Fetched::NotExecuted("timed out".to_string())),
        Reply::Error("Failed to execute query: timed out".to_string())
    );
    assert_eq!(
        find_reply(Fetched::NotRead("cursor lost".to_string())),
        Reply::Error("Failed to read results: cursor lost".to_string())
    );
}

#[test]
fn find_one_answers_the_document_or_null() {
    assert_eq!(find_one_reply(Ok(None)), Reply::Payload(Value::Null));
    assert_eq!(find_one_reply(Ok(Some(named("a")))), Reply::Payload(named_json("a")));
    assert_eq!(
        find_one_reply(Err("timed out".to_string())),
        Reply::Error("Failed to execute query: timed out".to_string())
    );
}

#[test]
fn insert_one_is_planned_from_its_document() {
    let args = InsertOneArgs { collection: "users".to_string(), data: "{\"name\":\"a\"}".to_string() };
    assert_eq!(
        insert_one(args),
        Ok(Insertion { collection: "users".to_string(), document: named("a") })
    );
}

#[test]
fn insert_one_refuses_malformed_data() {
    let args = InsertOneArgs { collection: "users".to_string(), data: "{\"name\":".to_string() };
    let expected = format!("Failed to parse document: {}", parse_error("{\"name\":"));
    assert_eq!(insert_one(args), Err(expected));
}

#[test]
fn insert_one_against_unreachable_server_reports_failure() {
    let args = InsertOneArgs { collection: "users".to_string(), data: "{\"name\":\"a\"}".to_string() };
    assert!(insert_one(args).is_ok());
    let reply = insert_one_reply(Err("server selection timeout".to_string()));
    assert_eq!(
        reply,
        Reply::Error("Failed to insert document: server selection timeout".to_string())
    );
    assert_eq!(
        reply.into_result(),
        Err("Failed to insert document: server selection timeout".to_string())
    );
}

#[test]
fn inserts_answer_success_only_when_the_driver_succeeded() {
    let success = Reply::Payload(Value::String("success".to_string()));
    assert_eq!(insert_one_reply(Ok(())), success);
    assert_eq!(insert_many_reply(Ok(())), success);
    assert_ne!(insert_one_reply(Err(String::new())), success);
    assert_ne!(insert_many_reply(Err("success".to_string())), success);
    assert_eq!(
        insert_many_reply(Err("duplicate key".to_string())),
        Reply::Error("Failed to insert documents: duplicate key".to_string())
    );
}

#[test]
fn insert_many_is_planned_from_its_array() {
    let data = "[{\"name\":\"a\"},{\"name\":\"b\"}]".to_string();
    let args = InsertManyArgs { collection: "users".to_string(), data };
    assert_eq!(
        insert_many(args),
        Ok(Batch { collection: "users".to_string(), documents: vec![named("a"), named("b")] })
    );
    let empty = InsertManyArgs { collection: "users".to_string(), data: "[]".to_string() };
    assert_eq!(insert_many(empty), Ok(Batch { collection: "users".to_string(), documents: vec![] }));
}

#[test]
fn insert_many_refuses_what_is_no_array_of_documents() {
    for text in ["{}", "[1]", "[{}", "not json"] {
        let args = InsertManyArgs { collection: "users".to_string(), data: text.to_string() };
        let expected = format!("Failed to parse documents: {}", list_error(text));
        assert_eq!(insert_many(args), Err(expected));
    }
}

#[test]
fn aggregate_is_planned_from_its_pipeline() {
    let pipeline = "[{\"name\":\"a\"}]".to_string();
    let args = AggregateArgs { collection: "users".to_string(), pipeline };
    assert_eq!(
        aggregate(args),
        Ok(Aggregation { collection: "users".to_string(), pipeline: vec![named("a")] })
    );
}

#[test]
fn aggregate_refuses_a_malformed_pipeline() {
    let args = AggregateArgs { collection: "users".to_string(), pipeline: "{}".to_string() };
    let expected = format!("Failed to parse pipeline: {}", list_error("{}"));
    assert_eq!(aggregate(args), Err(expected));
}

#[test]
fn aggregate_answers_like_find_under_its_own_heads() {
    assert_eq!(
        aggregate_reply(Fetched::Documents(vec![named("a")])),
        Reply::Payload(Value::Array(vec![named_json("a")]))
    );
    assert_eq!(aggregate_reply(Fetched::Documents(vec![])), Reply::Payload(Value::Array(vec![])));
    assert_eq!(
        aggregate_reply(Fetched::NotExecuted("bad stage".to_string())),
        Reply::Error("Failed to execute aggregation: bad stage".to_string())
    );
    assert_eq!(
        aggregate_reply(Fetched::NotRead("cursor lost".to_string())),
        Reply::Error("Failed to read aggregation results: cursor lost".to_string())
    );
}

#[test]
fn plans_from_given_parses() {
    assert_eq!(
        Query::plan("c".to_string(), Err("boom".to_string())),
        Err("Failed to parse query: boom".to_string())
    );
    assert_eq!(
        Insertion::plan("c".to_string(), Err("boom".to_string())),
        Err("Failed to parse document: boom".to_string())
    );
    assert_eq!(
        Batch::plan("c".to_string(), Err("boom".to_string())),
        Err("Failed to parse documents: boom".to_string())
    );
    assert_eq!(
        Aggregation::plan("c".to_string(), Err("boom".to_string())),
        Err("Failed to parse pipeline: boom".to_string())
    );
    assert_eq!(
        Query::plan("c".to_string(), Ok(named("a"))),
        Ok(Query { collection: "c".to_string(), filter: named("a") })
    );
}

#[test]
fn replies_from_given_renderings() {
    assert_eq!(Reply::of_rendering(Ok(Value::Bool(true))), Reply::Payload(Value::Bool(true)));
    assert_eq!(
        Reply::of_failure(Failure::Connect, "x"),
        Reply::Error("Failed to connect: x".to_string())
    );
}

#[test]
fn results_without_rendering_are_reported_as_failure() {
    let reply = Reply::of_rendering(Err("key must be a string".to_string()));
    assert_eq!(reply, Reply::Error("Failed to serialize results: key must be a string".to_string()));
    assert_eq!(
        reply.into_result(),
        Err("Failed to serialize results: key must be a string".to_string())
    );
}

#[test]
fn into_result_keeps_payload_and_report() {
    assert_eq!(Reply::Payload(Value::Null).into_result(), Ok(Value::Null));
    assert_eq!(Reply::Error("report".to_string()).into_result(), Err("report".to_string()));
}

#[test]
fn find_answers_one_item_for_each_document() {
    let documents = vec![named("a"), named("b"), named("c")];
    match find_reply(Fetched::Documents(documents)).into_result() {
        Ok(Value::Array(items)) => {
            assert_eq!(items, vec![named_json("a"), named_json("b"), named_json("c")]);
            for (item, name) in items.iter().zip(["a", "b", "c"]) {
                assert_eq!(Ok(item.clone()), mongo_relay::json::json_of_document(&Some(named(name))));
            }
        }
        other => panic!("not an array: {:?}", other),
    }
}

use mcp_chroma::client::ChromaClient;
use mcp_chroma::dispatch::{dispatch, route, Operation};
use mcp_chroma::error::DispatchError;
use mcp_chroma::json::{Json, Num};
use mcp_chroma::tools::document_ids;

fn s(x: &str) -> Json {
    Json::Str(x.to_string())
}

fn num(n: u64) -> Json {
    Json::Number(Num::PosInt(n))
}

fn arr(items: Vec<Json>) -> Json {
    Json::Array(items)
}

fn obj(entries: Vec<(&str, Json)>) -> Json {
    Json::Object(entries.into_iter().map(|(k, v)| (k.to_string(), v)).collect())
}

fn client() -> ChromaClient {
    ChromaClient::new("localhost", 8000, None, None)
}

fn field<'a>(j: &'a Json, key: &str) -> Option<&'a Json> {
    match j {
        Json::Object(f) => f.iter().find(|(k, _)| k == key).map(|(_, v)| v),
        _ => None,
    }
}

fn text(j: Option<&Json>) -> Option<String> {
    match j {
        Some(Json::Str(t)) => Some(t.clone()),
        _ => None,
    }
}

fn number(j: Option<&Json>) -> Option<u64> {
    match j {
        Some(Json::Number(Num::PosInt(n))) => Some(*n),
        _ => None,
    }
}

fn validation(r: Result<Json, DispatchError>) -> String {
    match r {
        Err(DispatchError::ValidationError(m)) => m,
        other => panic!("expected a validation error, got {:?}", other),
    }
}

fn invalid_params(r: Result<Json, DispatchError>) -> bool {
    matches!(r, Err(DispatchError::InvalidParams(_)))
}

#[test]
fn add_documents_without_ids_succeeds() {
    let payload = obj(vec![("collection_name", s("c")), ("documents", arr(vec![s("a"), s("b")]))]);
    let r = dispatch(&client(), "add_documents", payload).unwrap();
    assert_eq!(text(Some(&r)).unwrap(), "Successfully added 2 documents to collection c");
    assert_eq!(document_ids(None, 2), vec!["0".to_string(), "1".to_string()]);
}

#[test]
fn update_documents_length_mismatch() {
    let payload = obj(vec![
        ("collection_name", s("c")),
        ("ids", arr(vec![s("1"), s("2")])),
        ("documents", arr(vec![s("x")])),
    ]);
    let m = validation(dispatch(&client(), "update_documents", payload));
    assert_eq!(m, "Length of 'documents' list must match length of 'ids' list.");
}

#[test]
fn process_thought_raises_total() {
    let payload = obj(vec![
        ("session_id", s("s1")),
        ("thought", s("t")),
        ("thought_number", num(2)),
        ("total_thoughts", num(1)),
        ("next_thought_needed", Json::Bool(true)),
    ]);
    let r = dispatch(&client(), "process_thought", payload).unwrap();
    assert_eq!(text(field(&r, "session_id")).unwrap(), "s1");
    assert_eq!(number(field(&r, "thought_number")), Some(2));
    assert_eq!(number(field(&r, "total_thoughts")), Some(2));
    assert!(matches!(field(&r, "next_thought_needed"), Some(Json::Bool(true))));
    assert!(field(&r, "error").is_none());
    assert!(field(&r, "status").is_none());
}

#[test]
fn process_thought_empty_session_fails_softly() {
    let payload = obj(vec![
        ("session_id", s("")),
        ("thought", s("t")),
        ("thought_number", num(1)),
        ("total_thoughts", num(1)),
        ("next_thought_needed", Json::Bool(false)),
    ]);
    let r = dispatch(&client(), "process_thought", payload).unwrap();
    assert_eq!(text(field(&r, "status")).unwrap(), "failed");
    assert_eq!(text(field(&r, "error")).unwrap(), "Invalid sessionId: must be provided");
    assert_eq!(number(field(&r, "thought_number")), Some(1));
    assert_eq!(number(field(&r, "total_thoughts")), Some(1));
    assert!(matches!(field(&r, "next_thought_needed"), Some(Json::Bool(false))));
}

#[test]
fn unknown_tool_is_method_not_found() {
    match dispatch(&client(), "unknown_tool", obj(vec![])) {
        Err(DispatchError::MethodNotFound(name)) => assert_eq!(name, "unknown_tool"),
        other => panic!("unexpected {:?}", other),
    }
    let e = dispatch(&client(), "unknown_tool", obj(vec![])).unwrap_err();
    assert_eq!(e.message(), "Method not found: unknown_tool");
}

#[test]
fn delete_documents_empty_ids() {
    let payload = obj(vec![("collection_name", s("c")), ("ids", arr(vec![]))]);
    let m = validation(dispatch(&client(), "delete_documents", payload));
    assert!(m.ends_with("'ids' list cannot be empty."));
    assert_eq!(m, "The 'ids' list cannot be empty.");
}

#[test]
fn unregistered_names_never_route() {
    assert!(route("").is_none());
    assert!(route("Add_Documents").is_none());
    assert!(matches!(dispatch(&client(), "", Json::Null), Err(DispatchError::MethodNotFound(_))));
    assert_eq!(route("add_documents"), Some(Operation::AddDocuments));
    assert_eq!(route("process_thought"), Some(Operation::ProcessThought));
}

#[test]
fn missing_required_field_is_invalid_params() {
    let payload = obj(vec![("documents", arr(vec![s("a")]))]);
    assert!(invalid_params(dispatch(&client(), "add_documents", payload)));
    let payload = obj(vec![("collection_name", s("c"))]);
    assert!(invalid_params(dispatch(&client(), "peek_collection", payload)));
}

#[test]
fn wrong_field_type_is_invalid_params() {
    let payload = obj(vec![("collection_name", num(3)), ("documents", arr(vec![s("a")]))]);
    assert!(invalid_params(dispatch(&client(), "add_documents", payload)));
    let payload = obj(vec![("collection_name", s("c")), ("documents", arr(vec![num(1)]))]);
    assert!(invalid_params(dispatch(&client(), "add_documents", payload)));
    let payload = obj(vec![("limit", s("ten"))]);
    assert!(invalid_params(dispatch(&client(), "list_collections", payload)));
    let payload = obj(vec![("collection_name", s("c")), ("limit", Json::Number(Num::NegInt(-1)))]);
    assert!(invalid_params(dispatch(&client(), "peek_collection", payload)));
}

#[test]
fn non_object_payload_is_invalid_params() {
    assert!(invalid_params(dispatch(&client(), "list_collections", Json::Null)));
    assert!(invalid_params(dispatch(&client(), "get_collection_count", arr(vec![s("c")]))));
}

#[test]
fn optional_fields_may_be_absent_or_null() {
    let r = dispatch(&client(), "list_collections", obj(vec![])).unwrap();
    match r {
        Json::Array(items) => {
            assert_eq!(items.len(), 1);
            assert_eq!(text(items.first()).unwrap(), "test_collection");
        },
        other => panic!("unexpected {:?}", other),
    }
    let payload = obj(vec![("limit", Json::Null), ("offset", num(2))]);
    assert!(dispatch(&client(), "list_collections", payload).is_ok());
}

#[test]
fn add_documents_empty_list_is_rejected() {
    let payload = obj(vec![("collection_name", s("c")), ("documents", arr(vec![]))]);
    let m = validation(dispatch(&client(), "add_documents", payload));
    assert_eq!(m, "The 'documents' list cannot be empty.");
}

#[test]
fn add_documents_with_ids_keeps_them() {
    let ids = vec!["x".to_string(), "y".to_string()];
    assert_eq!(document_ids(Some(ids.clone()), 2), ids);
    let payload = obj(vec![
        ("collection_name", s("c")),
        ("documents", arr(vec![s("a"), s("b"), s("c")])),
        ("ids", arr(vec![s("p"), s("q"), s("r")])),
    ]);
    let r = dispatch(&client(), "add_documents", payload).unwrap();
    assert_eq!(text(Some(&r)).unwrap(), "Successfully added 3 documents to collection c");
}

#[test]
fn generated_ids_count_in_decimal() {
    let ids = document_ids(None, 12);
    assert_eq!(ids.len(), 12);
    assert_eq!(ids[0], "0");
    assert_eq!(ids[9], "9");
    assert_eq!(ids[10], "10");
    assert_eq!(ids[11], "11");
    assert!(document_ids(None, 0).is_empty());
}

#[test]
fn update_documents_needs_some_list() {
    let payload = obj(vec![("collection_name", s("c")), ("ids", arr(vec![s("1")]))]);
    let m = validation(dispatch(&client(), "update_documents", payload));
    assert_eq!(m, "At least one of 'embeddings', 'metadatas', or 'documents' must be provided for update.");
    let payload = obj(vec![("collection_name", s("c")), ("ids", arr(vec![s("1")])), ("documents", Json::Null)]);
    assert!(validation(dispatch(&client(), "update_documents", payload)).starts_with("At least one"));
}

#[test]
fn update_documents_names_the_mismatched_list() {
    let grid = arr(vec![arr(vec![Json::Number(Num::Float("0.5".to_string())), num(1)])]);
    let payload = obj(vec![("collection_name", s("c")), ("ids", arr(vec![s("1"), s("2")])), ("embeddings", grid)]);
    assert_eq!(
        validation(dispatch(&client(), "update_documents", payload)),
        "Length of 'embeddings' list must match length of 'ids' list."
    );
    let payload = obj(vec![
        ("collection_name", s("c")),
        ("ids", arr(vec![s("1")])),
        ("metadatas", arr(vec![obj(vec![]), obj(vec![])])),
    ]);
    assert_eq!(
        validation(dispatch(&client(), "update_documents", payload)),
        "Length of 'metadatas' list must match length of 'ids' list."
    );
}

#[test]
fn update_documents_empty_ids() {
    let payload = obj(vec![("collection_name", s("c")), ("ids", arr(vec![])), ("documents", arr(vec![]))]);
    assert_eq!(validation(dispatch(&client(), "update_documents", payload)), "The 'ids' list cannot be empty.");
}

#[test]
fn update_documents_matching_lengths_succeeds() {
    let payload = obj(vec![
        ("collection_name", s("c")),
        ("ids", arr(vec![s("1"), s("2")])),
        ("documents", arr(vec![s("x"), s("y")])),
        ("metadatas", arr(vec![obj(vec![]), obj(vec![("k", s("v"))])])),
    ]);
    let r = dispatch(&client(), "update_documents", payload).unwrap();
    assert_eq!(text(Some(&r)).unwrap(), "Successfully updated 2 documents in collection 'c'");
}

#[test]
fn query_documents_rules() {
    let payload = obj(vec![("collection_name", s("c")), ("query_texts", arr(vec![]))]);
    assert_eq!(validation(dispatch(&client(), "query_documents", payload)), "The 'query_texts' list cannot be empty.");
    let payload = obj(vec![
        ("collection_name", s("c")),
        ("query_texts", arr(vec![s("q")])),
        ("where_filter", obj(vec![("source", s("a"))])),
        ("where_document", obj(vec![])),
    ]);
    let r = dispatch(&client(), "query_documents", payload).unwrap();
    assert!(field(&r, "ids").is_some());
    assert!(field(&r, "distances").is_some());
}

#[test]
fn delete_documents_succeeds() {
    let payload = obj(vec![("collection_name", s("c")), ("ids", arr(vec![s("a"), s("b"), s("c")]))]);
    let r = dispatch(&client(), "delete_documents", payload).unwrap();
    assert_eq!(text(Some(&r)).unwrap(), "Successfully deleted 3 documents from collection 'c'");
}

#[test]
fn collection_operations_answer() {
    let c = client();
    let r = dispatch(&c, "create_collection", obj(vec![("collection_name", s("new"))])).unwrap();
    assert_eq!(text(Some(&r)).unwrap(), "Created collection: new");
    let r = dispatch(&c, "get_collection_count", obj(vec![("collection_name", s("c"))])).unwrap();
    assert_eq!(number(Some(&r)), Some(3));
    let r = dispatch(&c, "delete_collection", obj(vec![("collection_name", s("c"))])).unwrap();
    assert_eq!(text(Some(&r)).unwrap(), "Successfully deleted collection c");
    let r = dispatch(&c, "get_collection_info", obj(vec![("collection_name", s("c"))])).unwrap();
    assert_eq!(text(field(&r, "name")).unwrap(), "c");
    assert_eq!(number(field(&r, "count")), Some(3));
    assert!(field(field(&r, "sample_documents").unwrap(), "documents").is_some());
    let r = dispatch(&c, "peek_collection", obj(vec![("collection_name", s("c")), ("limit", num(2))])).unwrap();
    assert!(field(&r, "metadatas").is_some());
    let r = dispatch(&c, "get_documents", obj(vec![("collection_name", s("c"))])).unwrap();
    assert!(field(&r, "ids").is_some());
}

#[test]
fn modify_collection_summarises_changes() {
    let c = client();
    let payload = obj(vec![("collection_name", s("c")), ("new_name", s("d"))]);
    let r = dispatch(&c, "modify_collection", payload).unwrap();
    assert_eq!(text(Some(&r)).unwrap(), "Successfully modified collection c: updated name");
    let payload = obj(vec![
        ("collection_name", s("c")),
        ("new_name", s("d")),
        ("new_metadata", obj(vec![])),
        ("ef_search", num(10)),
    ]);
    let r = dispatch(&c, "modify_collection", payload).unwrap();
    assert_eq!(text(Some(&r)).unwrap(), "Successfully modified collection c: updated name and metadata and hnsw");
    let payload = obj(vec![("collection_name", s("c")), ("resize_factor", Json::Number(Num::Float("1.5".to_string())))]);
    let r = dispatch(&c, "modify_collection", payload).unwrap();
    assert_eq!(text(Some(&r)).unwrap(), "Successfully modified collection c: updated hnsw");
    let r = dispatch(&c, "modify_collection", obj(vec![("collection_name", s("c"))])).unwrap();
    assert_eq!(text(Some(&r)).unwrap(), "Successfully modified collection c: updated ");
}

#[test]
fn int32_fields_are_range_checked() {
    let c = client();
    let payload = obj(vec![("collection_name", s("c")), ("ef_search", num(3_000_000_000))]);
    assert!(invalid_params(dispatch(&c, "modify_collection", payload)));
    let payload = obj(vec![("collection_name", s("c")), ("ef_search", Json::Number(Num::NegInt(-5)))]);
    assert!(dispatch(&c, "modify_collection", payload).is_ok());
}

#[test]
fn invalid_params_detail_names_the_field() {
    let payload = obj(vec![("documents", arr(vec![s("a")]))]);
    match dispatch(&client(), "add_documents", payload) {
        Err(e @ DispatchError::InvalidParams(_)) => assert_eq!(e.message(), "missing field `collection_name`"),
        other => panic!("unexpected {:?}", other),
    }
}

#[test]
fn zero_thought_number_answers_with_failure() {
    let payload = obj(vec![
        ("session_id", s("s")),
        ("thought", s("t")),
        ("thought_number", num(0)),
        ("total_thoughts", num(3)),
        ("next_thought_needed", Json::Bool(true)),
    ]);
    let r = dispatch(&client(), "process_thought", payload).unwrap();
    assert_eq!(text(field(&r, "status")).unwrap(), "failed");
    assert_eq!(text(field(&r, "error")).unwrap(), "Invalid thoughtNumber: must be a number greater than 0");
    assert_eq!(number(field(&r, "total_thoughts")), Some(3));
}

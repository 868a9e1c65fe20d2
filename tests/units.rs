use mcp_chroma::client::{initialize_client, parse_port, ChromaClient};
use mcp_chroma::config::{ClientType, Config, ConfigError};
use mcp_chroma::decode::DecodeError;
use mcp_chroma::dispatch::thought_json;
use mcp_chroma::json::{Json, Num};
use mcp_chroma::registry::get_tool_definitions;
use mcp_chroma::requests::{AddDocumentsRequest, ThoughtData, UpdateDocumentsRequest};
use mcp_chroma::text::decimal_text;
use mcp_chroma::thought::{process_thought, validate_thought_data};
use mcp_chroma::tools::{query_result_count, result_parts_or};

fn base_config(client_type: ClientType) -> Config {
    Config {
        client_type,
        data_dir: None,
        host: None,
        port: None,
        custom_auth_credentials: None,
        tenant: None,
        database: None,
        api_key: None,
        ssl: true,
        dotenv_path: ".chroma_env".to_string(),
    }
}

fn step(session: &str, thought: &str, number: usize, total: usize) -> ThoughtData {
    ThoughtData {
        session_id: session.to_string(),
        thought: thought.to_string(),
        thought_number: number,
        total_thoughts: total,
        next_thought_needed: true,
        is_revision: None,
        revises_thought: None,
        branch_from_thought: None,
        branch_id: None,
        needs_more_thoughts: None,
    }
}

fn entry(key: &str, value: Json) -> (String, Json) {
    (key.to_string(), value)
}

#[test]
fn config_ephemeral_needs_nothing() {
    assert_eq!(base_config(ClientType::Ephemeral).validate(), Ok(()));
}

#[test]
fn config_http_needs_host() {
    let mut c = base_config(ClientType::Http);
    assert_eq!(c.validate(), Err(ConfigError::MissingHost));
    assert_eq!(ConfigError::MissingHost.message(), "Host must be provided for HTTP client");
    c.host = Some("example".to_string());
    assert_eq!(c.validate(), Ok(()));
}

#[test]
fn config_cloud_needs_tenant_database_and_key() {
    let mut c = base_config(ClientType::Cloud);
    assert_eq!(c.validate(), Err(ConfigError::MissingTenant));
    c.tenant = Some("t".to_string());
    assert_eq!(c.validate(), Err(ConfigError::MissingDatabase));
    c.database = Some("d".to_string());
    assert_eq!(c.validate(), Err(ConfigError::MissingApiKey));
    assert_eq!(ConfigError::MissingApiKey.message(), "API key must be provided for cloud client");
    c.api_key = Some("k".to_string());
    assert_eq!(c.validate(), Ok(()));
}

#[test]
fn config_persistent_needs_data_dir() {
    let mut c = base_config(ClientType::Persistent);
    assert_eq!(c.validate(), Err(ConfigError::MissingDataDir));
    assert_eq!(
        ConfigError::MissingDataDir.message(),
        "Data directory must be provided for persistent client"
    );
    c.data_dir = Some("/tmp/data".to_string());
    assert_eq!(c.validate(), Ok(()));
}

#[test]
fn port_text_is_read_like_an_unsigned_integer() {
    assert_eq!(parse_port("8000"), Some(8000));
    assert_eq!(parse_port("+80"), Some(80));
    assert_eq!(parse_port("0"), Some(0));
    assert_eq!(parse_port("65535"), Some(65535));
    assert_eq!(parse_port("65536"), None);
    assert_eq!(parse_port("123456789"), None);
    assert_eq!(parse_port(""), None);
    assert_eq!(parse_port("+"), None);
    assert_eq!(parse_port("-1"), None);
    assert_eq!(parse_port("80a"), None);
}

#[test]
fn client_settings_default() {
    let c = initialize_client(None, None, None, None);
    assert_eq!(c.host, "localhost");
    assert_eq!(c.port, 8000);
    let c = initialize_client(Some("db".to_string()), Some("9000".to_string()), Some("u".to_string()), None);
    assert_eq!(c.host, "db");
    assert_eq!(c.port, 9000);
    assert_eq!(c.username.as_deref(), Some("u"));
    assert!(c.password.is_none());
    let c = initialize_client(None, Some("port".to_string()), None, None);
    assert_eq!(c.port, 8000);
}

#[test]
fn client_new_keeps_settings() {
    let c = ChromaClient::new("h", 1234, Some("user"), Some("pw"));
    assert_eq!(c.host, "h");
    assert_eq!(c.port, 1234);
    assert_eq!(c.username.as_deref(), Some("user"));
    assert_eq!(c.password.as_deref(), Some("pw"));
    let names = c.list_collections(None, None).unwrap();
    assert_eq!(names, vec!["test_collection".to_string()]);
    let col = c.get_collection("docs").unwrap();
    assert_eq!(col.name, "docs");
    assert_eq!(col.count().unwrap(), 3);
    assert!(col.delete(vec!["a".to_string()]).is_ok());
    assert!(c.delete_collection("docs").is_ok());
}

#[test]
fn decimal_text_of_numbers() {
    assert_eq!(decimal_text(0), "0");
    assert_eq!(decimal_text(7), "7");
    assert_eq!(decimal_text(10), "10");
    assert_eq!(decimal_text(1203), "1203");
    assert_eq!(decimal_text(usize::MAX), usize::MAX.to_string());
}

#[test]
fn thought_with_zero_number_fails() {
    let r = process_thought(step("s", "t", 0, 4));
    assert_eq!(r.status.as_deref(), Some("failed"));
    assert_eq!(r.error.as_deref(), Some("Invalid thoughtNumber: must be a number greater than 0"));
    assert_eq!(r.thought_number, 0);
    assert_eq!(r.total_thoughts, 4);
}

#[test]
fn thought_with_zero_total_fails() {
    let r = process_thought(step("s", "t", 2, 0));
    assert_eq!(r.status.as_deref(), Some("failed"));
    assert_eq!(r.error.as_deref(), Some("Invalid totalThoughts: must be a number greater than 0"));
    assert_eq!(r.thought_number, 2);
    assert_eq!(r.total_thoughts, 0);
}

#[test]
fn thought_with_empty_text_fails() {
    assert_eq!(validate_thought_data(&step("s", "", 1, 1)), Err("Invalid thought: must be a string".to_string()));
    assert_eq!(validate_thought_data(&step("s", "t", 1, 1)), Ok(()));
}

#[test]
fn thought_total_grows_to_number() {
    let r = process_thought(step("s", "t", 5, 3));
    assert_eq!(r.total_thoughts, 5);
    assert!(r.error.is_none() && r.status.is_none());
    let r = process_thought(step("s", "t", 2, 3));
    assert_eq!(r.total_thoughts, 3);
}

#[test]
fn thought_answer_as_object() {
    let j = thought_json(process_thought(step("", "t", 1, 1)));
    match j {
        Json::Object(f) => {
            let keys: Vec<&str> = f.iter().map(|(k, _)| k.as_str()).collect();
            assert_eq!(
                keys,
                vec!["session_id", "thought_number", "total_thoughts", "next_thought_needed", "error", "status"]
            );
        },
        other => panic!("unexpected {:?}", other),
    }
}

#[test]
fn query_defaults() {
    assert_eq!(query_result_count(None), 5);
    assert_eq!(query_result_count(Some(9)), 9);
    assert_eq!(result_parts_or(None, true), vec!["documents", "metadatas", "distances"]);
    assert_eq!(result_parts_or(None, false), vec!["documents", "metadatas"]);
    assert_eq!(result_parts_or(Some(vec!["ids".to_string()]), true), vec!["ids"]);
}

#[test]
fn add_request_decodes_fields() {
    let payload = Json::Object(vec![
        entry("collection_name", Json::Str("c".to_string())),
        entry("documents", Json::Array(vec![Json::Str("a".to_string())])),
        entry("metadatas", Json::Array(vec![Json::Object(vec![])])),
        entry("ids", Json::Null),
    ]);
    let q = AddDocumentsRequest::from_json(payload).unwrap();
    assert_eq!(q.collection_name, "c");
    assert_eq!(q.documents, vec!["a".to_string()]);
    assert_eq!(q.metadatas.map(|m| m.len()), Some(1));
    assert!(q.ids.is_none());
}

#[test]
fn decode_errors_name_the_field() {
    let e = AddDocumentsRequest::from_json(Json::Object(vec![entry("documents", Json::Array(vec![]))])).unwrap_err();
    assert!(matches!(&e, DecodeError::MissingField(n) if n == "collection_name"));
    assert_eq!(e.message(), "missing field `collection_name`");
    let e = AddDocumentsRequest::from_json(Json::Object(vec![
        entry("collection_name", Json::Str("c".to_string())),
        entry("documents", Json::Bool(true)),
    ]))
    .unwrap_err();
    assert_eq!(e.message(), "invalid type for field `documents`");
    let e = AddDocumentsRequest::from_json(Json::Bool(false)).unwrap_err();
    assert!(matches!(e, DecodeError::NotAnObject));
}

#[test]
fn update_request_decodes_grid() {
    let payload = Json::Object(vec![
        entry("collection_name", Json::Str("c".to_string())),
        entry("ids", Json::Array(vec![Json::Str("1".to_string())])),
        entry(
            "embeddings",
            Json::Array(vec![Json::Array(vec![
                Json::Number(Num::Float("0.25".to_string())),
                Json::Number(Num::PosInt(2)),
            ])]),
        ),
    ]);
    let q = UpdateDocumentsRequest::from_json(payload).unwrap();
    let grid = q.embeddings.unwrap();
    assert_eq!(grid.len(), 1);
    assert_eq!(grid[0].len(), 2);
    assert!(matches!(&grid[0][0], Num::Float(t) if t == "0.25"));
    let bad = Json::Object(vec![
        entry("collection_name", Json::Str("c".to_string())),
        entry("ids", Json::Array(vec![])),
        entry("embeddings", Json::Array(vec![Json::Array(vec![Json::Str("x".to_string())])])),
    ]);
    assert!(UpdateDocumentsRequest::from_json(bad).is_err());
}

#[test]
fn catalog_lists_every_operation() {
    let tools = get_tool_definitions();
    let names: Vec<&str> = tools.iter().map(|t| t.name.as_str()).collect();
    assert_eq!(
        names,
        vec![
            "list_collections",
            "create_collection",
            "peek_collection",
            "get_collection_info",
            "get_collection_count",
            "modify_collection",
            "delete_collection",
            "add_documents",
            "query_documents",
            "get_documents",
            "update_documents",
            "delete_documents",
            "process_thought",
        ]
    );
    for t in &tools {
        assert!(mcp_chroma::dispatch::route(&t.name).is_some());
    }
}

#[test]
fn catalog_schema_marks_required_fields() {
    let tools = get_tool_definitions();
    let add = tools.iter().find(|t| t.name == "add_documents").unwrap();
    assert_eq!(add.description, "Adds documents to a collection");
    match &add.input_schema {
        Json::Object(f) => {
            assert_eq!(f[0].0, "type");
            assert_eq!(f[1].0, "required");
            match &f[1].1 {
                Json::Array(items) => {
                    let req: Vec<String> = items
                        .iter()
                        .map(|i| match i {
                            Json::Str(s) => s.clone(),
                            _ => String::new(),
                        })
                        .collect();
                    assert_eq!(req, vec!["collection_name", "documents"]);
                },
                other => panic!("unexpected {:?}", other),
            }
            match &f[2].1 {
                Json::Object(p) => {
                    let keys: Vec<&str> = p.iter().map(|(k, _)| k.as_str()).collect();
                    assert_eq!(keys, vec!["collection_name", "documents", "metadatas", "ids"]);
                },
                other => panic!("unexpected {:?}", other),
            }
        },
        other => panic!("unexpected {:?}", other),
    }
}

fn texts_of_schema(j: &Json) -> Vec<(String, String)> {
    match j {
        Json::Object(f) => f
            .iter()
            .map(|(k, v)| {
                let t = match v {
                    Json::Str(s) => s.clone(),
                    _ => "*".to_string(),
                };
                (k.clone(), t)
            })
            .collect(),
        _ => vec![],
    }
}

#[test]
fn catalog_property_schemas_have_types_and_descriptions() {
    let tools = get_tool_definitions();
    let peek = tools.iter().find(|t| t.name == "peek_collection").unwrap();
    assert_eq!(peek.description, "Shows a sample of documents in a collection");
    let props = match &peek.input_schema {
        Json::Object(f) => match &f[2].1 {
            Json::Object(p) => p,
            other => panic!("unexpected {:?}", other),
        },
        other => panic!("unexpected {:?}", other),
    };
    assert_eq!(props[1].0, "limit");
    assert_eq!(
        texts_of_schema(&props[1].1),
        vec![
            ("type".to_string(), "integer".to_string()),
            ("description".to_string(), "Maximum number of items to return".to_string()),
        ]
    );
    let again = get_tool_definitions();
    for (a, b) in tools.iter().zip(again.iter()) {
        assert_eq!(a.name, b.name);
        assert_eq!(a.description, b.description);
    }
}

#[test]
fn decode_error_messages() {
    assert_eq!(DecodeError::NotAnObject.message(), "invalid type: expected an object");
    assert_eq!(DecodeError::InvalidType("x".to_string()).message(), "invalid type for field `x`");
}

use mcp_manager::client::{McpClientManager, RegistryError};
use mcp_manager::dispatch::ToolCallStep;
use mcp_manager::json::{normalize_tool_arguments, unwrap_invocation, Json};
use mcp_manager::types::{ServerInfo, Timestamp, ToolCallRequest};

fn obj(entries: Vec<(&str, Json)>) -> Json {
    Json::Object(entries.into_iter().map(|(k, v)| (k.to_string(), v)).collect())
}

fn num(n: &str) -> Json {
    Json::Number(n.to_string())
}

#[test]
fn envelope_text_is_unwrapped() {
    let params = Json::String(r#"{"name":"x","arguments":{"a":1}}"#.to_string());
    assert_eq!(normalize_tool_arguments(params), obj(vec![("a", num("1"))]));
}

#[test]
fn non_json_text_is_kept() {
    let params = Json::String("hello".to_string());
    assert_eq!(normalize_tool_arguments(params), Json::String("hello".to_string()));
}

#[test]
fn non_string_value_passes_through() {
    let params = obj(vec![("a", num("1"))]);
    assert_eq!(normalize_tool_arguments(params), obj(vec![("a", num("1"))]));
}

#[test]
fn parsed_text_without_envelope_is_used_as_is() {
    let params = Json::String(r#"{"limit":[1,true,null],"query":"select * from products"}"#.to_string());
    assert_eq!(
        normalize_tool_arguments(params),
        obj(vec![
            ("limit", Json::Array(vec![num("1"), Json::Bool(true), Json::Null])),
            ("query", Json::String("select * from products".to_string())),
        ])
    );
}

#[test]
fn envelope_with_non_object_arguments_is_kept_whole() {
    let parsed = obj(vec![("name", Json::String("x".to_string())), ("arguments", num("3"))]);
    let expected = obj(vec![("name", Json::String("x".to_string())), ("arguments", num("3"))]);
    assert_eq!(unwrap_invocation(parsed), expected);
}

#[test]
fn arguments_without_name_are_not_unwrapped() {
    let parsed = obj(vec![("arguments", obj(vec![("a", num("1"))]))]);
    let expected = obj(vec![("arguments", obj(vec![("a", num("1"))]))]);
    assert_eq!(unwrap_invocation(parsed), expected);
}

#[test]
fn duplicate_copies_whole_tree() {
    let v = obj(vec![("a", Json::Array(vec![num("2.5"), Json::String("s".to_string())]))]);
    assert_eq!(v.duplicate(), v);
}

fn registry() -> McpClientManager<u32> {
    let mut m = McpClientManager::new();
    let info = ServerInfo { name: "s".to_string(), version: "1".to_string(), capabilities: vec![] };
    m.initialize_client_at("c".to_string(), 4, info, Timestamp { secs: 1, nanos: 0 }).unwrap();
    m
}

#[test]
fn empty_tool_name_is_answered_without_call() {
    let m = registry();
    let req = ToolCallRequest { client_id: "c".to_string(), tool_name: String::new(), params: Json::Null };
    match m.call_tool(req).unwrap() {
        ToolCallStep::Answer(resp) => {
            assert!(!resp.success);
            assert!(resp.data.is_none());
            assert_eq!(resp.error, Some("工具名称不能为空".to_string()));
        }
        ToolCallStep::Forward { .. } => panic!("an empty tool name must not be forwarded"),
    }
}

#[test]
fn tool_call_forwards_normalised_arguments() {
    let m = registry();
    let req = ToolCallRequest {
        client_id: "c".to_string(),
        tool_name: "query".to_string(),
        params: Json::String(r#"{"name":"query","arguments":{"sql":"select 1"}}"#.to_string()),
    };
    match m.call_tool(req).unwrap() {
        ToolCallStep::Forward { session, arguments } => {
            assert_eq!(*session, 4);
            assert_eq!(arguments, obj(vec![("sql", Json::String("select 1".to_string()))]));
        }
        ToolCallStep::Answer(_) => panic!("expected the call to be forwarded"),
    }
}

#[test]
fn tool_call_to_unknown_or_disconnected_client_fails() {
    let mut m = registry();
    let req = ToolCallRequest { client_id: "x".to_string(), tool_name: "q".to_string(), params: Json::Null };
    assert_eq!(m.call_tool(req).err(), Some(RegistryError::NotFound("x".to_string())));
    m.disconnect_client("c").unwrap();
    let req = ToolCallRequest { client_id: "c".to_string(), tool_name: "q".to_string(), params: Json::Null };
    assert_eq!(m.call_tool(req).err(), Some(RegistryError::NotConnected("c".to_string())));
}

use mcp_manager::dispatch::{
    decimal_text, respond, tool_call_response, within_deadline, RemoteFailure, TOOL_CALL_TIMEOUT_SECS,
};
use mcp_manager::json::Json;
use mcp_manager::types::{McpResponse, PromptInfo, ResourceInfo, ServerInfo, ToolInfo};

#[test]
fn deadline_passed_is_not_ready() {
    let r: McpResponse<Json> = tool_call_response(None);
    assert!(!r.success);
    assert!(r.data.is_none());
    assert_eq!(r.error, Some("服务未就绪或超时".to_string()));
    assert_eq!(TOOL_CALL_TIMEOUT_SECS, 30);
}

#[test]
fn result_within_deadline_is_kept() {
    let r = tool_call_response(Some(Ok::<Json, RemoteFailure>(Json::Bool(true))));
    assert!(r.success);
    assert_eq!(r.data, Some(Json::Bool(true)));
    assert!(r.error.is_none());
    assert_eq!(within_deadline::<u8>(Some(Err(RemoteFailure::Timeout))), Err(RemoteFailure::Timeout));
    assert_eq!(within_deadline::<u8>(None), Err(RemoteFailure::NotReady));
}

#[test]
fn failures_render_with_their_prefixes() {
    let cases = vec![
        (RemoteFailure::Transport("closed".to_string()), "传输错误: closed"),
        (
            RemoteFailure::Rpc { code: -32601, message: "no such method".to_string() },
            "RPC错误: 代码=-32601, 消息=no such method",
        ),
        (RemoteFailure::Serialization("bad".to_string()), "序列化错误: bad"),
        (RemoteFailure::UnexpectedResponse("odd".to_string()), "意外响应: odd"),
        (RemoteFailure::NotInitialized, "客户端未初始化"),
        (RemoteFailure::NotReady, "服务未就绪或超时"),
        (RemoteFailure::Timeout, "请求超时"),
        (RemoteFailure::ServerBox("oops".to_string()), "服务器错误: oops"),
        (
            RemoteFailure::ServerCall {
                method: "tools/call".to_string(),
                server: "sqlite".to_string(),
                source: "denied".to_string(),
            },
            "MCP服务器错误: 方法=tools/call, 服务器=sqlite, 源=denied",
        ),
        (RemoteFailure::Unknown("what".to_string()), "未知错误: what"),
    ];
    for (failure, text) in cases {
        assert_eq!(failure.render(), text);
        let r: McpResponse<Json> = respond(Err(failure));
        assert!(!r.success);
        assert!(r.data.is_none());
        assert_eq!(r.error, Some(text.to_string()));
    }
}

#[test]
fn decimal_text_of_integers() {
    assert_eq!(decimal_text(0), "0");
    assert_eq!(decimal_text(7), "7");
    assert_eq!(decimal_text(1431648000), "1431648000");
    assert_eq!(decimal_text(-32700), "-32700");
    assert_eq!(decimal_text(i64::MIN), "-9223372036854775808");
    assert_eq!(decimal_text(i64::MAX), "9223372036854775807");
}

#[test]
fn listings_convert() {
    let t = ToolInfo::listed("q".to_string(), "run".to_string(), Json::Null);
    assert_eq!(t.parameters_schema, Some(Json::Null));
    assert!(t.result_schema.is_none());
    let r = ResourceInfo::listed("file:///a".to_string(), None, "text/plain".to_string());
    assert_eq!(r.description, "");
    assert_eq!(r.content_type, "text/plain");
    let p = PromptInfo::listed("p".to_string(), Some("d".to_string()), Json::Array(vec![]));
    assert_eq!(p.description, "d");
    assert_eq!(p.parameters_schema, Some(Json::Array(vec![])));
}

#[test]
fn handshake_capabilities_keep_object_entries() {
    let caps = Json::Object(vec![("tools".to_string(), Json::Object(vec![]))]);
    let s = ServerInfo::from_handshake("n".to_string(), "v".to_string(), caps);
    assert_eq!(s.capabilities, vec![("tools".to_string(), Json::Object(vec![]))]);
    let s = ServerInfo::from_handshake("n".to_string(), "v".to_string(), Json::Null);
    assert!(s.capabilities.is_empty());
}

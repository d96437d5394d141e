use mcp_manager::client::{McpClientManager, RegistryError};
use mcp_manager::launch::{after_probe, contains_text, first_probe, LaunchStep, ProbeStage};
use mcp_manager::transport::{merge_inherited_path, plan_transport, TransportPlan};
use mcp_manager::types::{InitializeClientRequest, ServerInfo, Timestamp, TransportType};

fn request(kind: TransportType) -> InitializeClientRequest {
    InitializeClientRequest {
        id: "test-client".to_string(),
        transport_type: kind,
        sse_url: None,
        command: None,
        args: None,
        headers: None,
        timeout_secs: Some(30),
        client_name: "test-client".to_string(),
        client_version: "1.0.0".to_string(),
    }
}

fn pair(k: &str, v: &str) -> (String, String) {
    (k.to_string(), v.to_string())
}

#[test]
fn streaming_needs_url() {
    let e = plan_transport(request(TransportType::SSE), None).unwrap_err();
    assert_eq!(e, RegistryError::MissingUrl);
    assert_eq!(e.message(), "URL is required for SSE transport");
    let mut r = request(TransportType::SSE);
    r.sse_url = Some("http://localhost:8000/sse".to_string());
    r.headers = Some(vec![pair("Authorization", "Bearer x")]);
    match plan_transport(r, Some("/bin".to_string())).unwrap() {
        TransportPlan::Sse { url, headers } => {
            assert_eq!(url, "http://localhost:8000/sse");
            assert_eq!(headers, vec![pair("Authorization", "Bearer x")]);
        }
        other => panic!("unexpected plan {:?}", other),
    }
}

#[test]
fn subprocess_needs_command() {
    let e = plan_transport(request(TransportType::Stdio), None).unwrap_err();
    assert_eq!(e, RegistryError::MissingCommand);
    assert_eq!(e.message(), "Command is required for Stdio transport");
}

#[test]
fn subprocess_inherits_search_path() {
    let mut r = request(TransportType::Stdio);
    r.command = Some("./src/mcp/mcp-sqlite.exe".to_string());
    r.args = Some(vec!["--db".to_string(), "test.db".to_string()]);
    match plan_transport(r, Some("/usr/bin".to_string())).unwrap() {
        TransportPlan::Stdio { command, args, env } => {
            assert_eq!(command, "./src/mcp/mcp-sqlite.exe");
            assert_eq!(args, vec!["--db".to_string(), "test.db".to_string()]);
            assert_eq!(env, vec![pair("PATH", "/usr/bin")]);
        }
        other => panic!("unexpected plan {:?}", other),
    }
}

#[test]
fn caller_path_comes_first() {
    let env = vec![pair("HOME", "/h"), pair("PATH", "/opt/tool")];
    assert_eq!(
        merge_inherited_path(env, Some("/usr/bin".to_string())),
        vec![pair("HOME", "/h"), pair("PATH", "/opt/tool;/usr/bin")]
    );
    let env = vec![pair("HOME", "/h")];
    assert_eq!(merge_inherited_path(env, None), vec![pair("HOME", "/h")]);
}

#[test]
fn planning_refuses_registered_identifier() {
    let mut m: McpClientManager<u8> = McpClientManager::new();
    let info = ServerInfo { name: "s".to_string(), version: "1".to_string(), capabilities: vec![] };
    m.initialize_client_at("test-client".to_string(), 0, info, Timestamp { secs: 0, nanos: 0 }).unwrap();
    let mut r = request(TransportType::SSE);
    r.sse_url = Some("http://x".to_string());
    assert_eq!(
        m.plan_client(r, None).unwrap_err(),
        RegistryError::DuplicateIdentifier("test-client".to_string())
    );
}

fn launch(step: LaunchStep) -> (String, Vec<String>) {
    match step {
        LaunchStep::Launch { program, args } => (program, args),
        other => panic!("expected a launch, got {:?}", other),
    }
}

fn probe(step: LaunchStep) -> (ProbeStage, String) {
    match step {
        LaunchStep::Probe { stage, candidate } => (stage, candidate),
        other => panic!("expected a probe, got {:?}", other),
    }
}

#[test]
fn script_found_on_path_runs_through_shell() {
    let cmd = "npx".to_string();
    let args = vec!["server".to_string()];
    assert_eq!(probe(first_probe(&cmd)), (ProbeStage::Bare, "npx".to_string()));
    let located = Some("C:\\nodejs\\npx\r\nC:\\nodejs\\npx.cmd\r\n".to_string());
    assert_eq!(
        launch(after_probe(&cmd, &args, ProbeStage::Bare, located)),
        ("cmd.exe".to_string(), vec!["/c".to_string(), "npx".to_string(), "server".to_string()])
    );
}

#[test]
fn binary_found_on_path_runs_directly() {
    let cmd = "python".to_string();
    let args = vec!["-m".to_string(), "srv".to_string()];
    let located = Some("C:\\py\\python.exe".to_string());
    assert_eq!(launch(after_probe(&cmd, &args, ProbeStage::Bare, located)), (cmd.clone(), args.clone()));
}

#[test]
fn suffixes_are_tried_in_turn() {
    let cmd = "tool".to_string();
    let args = vec!["a".to_string()];
    assert_eq!(
        probe(after_probe(&cmd, &args, ProbeStage::Bare, None)),
        (ProbeStage::Script, "tool.cmd".to_string())
    );
    assert_eq!(
        launch(after_probe(&cmd, &args, ProbeStage::Script, Some("x".to_string()))),
        ("cmd.exe".to_string(), vec!["/c".to_string(), "tool.cmd".to_string(), "a".to_string()])
    );
    assert_eq!(
        probe(after_probe(&cmd, &args, ProbeStage::Script, None)),
        (ProbeStage::Executable, "tool.exe".to_string())
    );
    assert_eq!(
        launch(after_probe(&cmd, &args, ProbeStage::Executable, Some("x".to_string()))),
        ("tool.exe".to_string(), args.clone())
    );
    assert_eq!(launch(after_probe(&cmd, &args, ProbeStage::Executable, None)), (cmd.clone(), args.clone()));
}

#[test]
fn substring_search() {
    assert!(contains_text("a.cmd", ".cmd"));
    assert!(contains_text("路径\\x.cmd", ".cmd"));
    assert!(!contains_text("a.cm", ".cmd"));
    assert!(contains_text("abc", ""));
    assert!(!contains_text("", "a"));
}

use mcp_manager::client::{McpClientManager, RegistryError};
use mcp_manager::json::Json;
use mcp_manager::types::{ClientStatus, ServerInfo, Timestamp};

fn server() -> ServerInfo {
    ServerInfo {
        name: "sqlite".to_string(),
        version: "1.0.0".to_string(),
        capabilities: vec![(
            "tools".to_string(),
            Json::Object(vec![("listChanged".to_string(), Json::Bool(true))]),
        )],
    }
}

fn at(secs: i64) -> Timestamp {
    Timestamp { secs, nanos: 0 }
}

#[test]
fn register_then_status_is_connected() {
    let mut m: McpClientManager<u32> = McpClientManager::new();
    let r = m.initialize_client_at("test-client".to_string(), 7, server(), at(100)).unwrap();
    assert_eq!(r.id, "test-client");
    assert_eq!(r.status, ClientStatus::Connected);
    assert_eq!(r.connected_at, Some(at(100)));
    let s = m.get_client_status("test-client").unwrap();
    assert_eq!(s.status, ClientStatus::Connected);
    assert_eq!(s.error, None);
    assert_eq!(s.connected_at, Some(at(100)));
    assert_eq!(s.server_info, Some(server()));
}

#[test]
fn register_with_clock_stamps_connection() {
    let mut m: McpClientManager<u32> = McpClientManager::new();
    let r = m.initialize_client("test-client".to_string(), 1, server()).unwrap();
    assert!(r.connected_at.is_some());
    let s = m.get_client_status("test-client").unwrap();
    assert_eq!(s.status, ClientStatus::Connected);
    assert_eq!(s.connected_at, r.connected_at);
}

#[test]
fn duplicate_registration_is_refused() {
    let mut m: McpClientManager<u32> = McpClientManager::new();
    m.initialize_client_at("a".to_string(), 1, server(), at(1)).unwrap();
    let second = m.initialize_client_at("a".to_string(), 2, server(), at(2));
    assert_eq!(second.unwrap_err(), RegistryError::DuplicateIdentifier("a".to_string()));
    assert_eq!(*m.get_client("a").unwrap(), 1);
    assert_eq!(m.get_client_status("a").unwrap().connected_at, Some(at(1)));
    assert_eq!(
        RegistryError::DuplicateIdentifier("a".to_string()).message(),
        "Client with ID 'a' already exists"
    );
}

#[test]
fn disconnect_keeps_entry() {
    let mut m: McpClientManager<u32> = McpClientManager::new();
    m.initialize_client_at("test-client".to_string(), 1, server(), at(5)).unwrap();
    let r = m.disconnect_client("test-client").unwrap();
    assert_eq!(r.status, ClientStatus::Disconnected);
    assert_eq!(r.connected_at, None);
    assert_eq!(r.server_info, Some(server()));
    let s = m.get_client_status("test-client").unwrap();
    assert_eq!(s.status, ClientStatus::Disconnected);
    assert_eq!(s.connected_at, None);
    assert_eq!(s.server_info, Some(server()));
    assert!(m.contains("test-client"));
}

#[test]
fn disconnect_unknown_is_not_found() {
    let mut m: McpClientManager<u32> = McpClientManager::new();
    let e = m.disconnect_client("ghost").unwrap_err();
    assert_eq!(e, RegistryError::NotFound("ghost".to_string()));
    assert_eq!(e.message(), "Client with ID 'ghost' not found");
}

#[test]
fn delete_then_status_is_not_found() {
    let mut m: McpClientManager<u32> = McpClientManager::new();
    m.initialize_client_at("test-client".to_string(), 1, server(), at(5)).unwrap();
    m.delete_client("test-client").unwrap();
    assert_eq!(
        m.get_client_status("test-client").unwrap_err(),
        RegistryError::NotFound("test-client".to_string())
    );
    assert_eq!(
        m.delete_client("test-client").unwrap_err(),
        RegistryError::NotFound("test-client".to_string())
    );
    assert!(m.get_all_client_statuses().is_empty());
}

#[test]
fn forwarding_needs_connected_client() {
    let mut m: McpClientManager<u32> = McpClientManager::new();
    m.initialize_client_at("c".to_string(), 9, server(), at(5)).unwrap();
    assert_eq!(*m.get_client("c").unwrap(), 9);
    m.disconnect_client("c").unwrap();
    let e = m.get_client("c").unwrap_err();
    assert_eq!(e, RegistryError::NotConnected("c".to_string()));
    assert_eq!(e.message(), "Client with ID 'c' is not connected");
    assert_eq!(m.get_client("never").unwrap_err(), RegistryError::NotFound("never".to_string()));
}

#[test]
fn two_registrations_are_listed() {
    let mut m: McpClientManager<u32> = McpClientManager::new();
    m.initialize_client_at("client1".to_string(), 1, server(), at(10)).unwrap();
    m.initialize_client_at("client2".to_string(), 2, server(), at(20)).unwrap();
    let all = m.get_all_client_statuses();
    assert_eq!(all.len(), 2);
    assert!(all.iter().any(|s| s.id == "client1"));
    assert!(all.iter().any(|s| s.id == "client2"));
    for s in &all {
        let own = m.get_client_status(&s.id).unwrap();
        assert_eq!(own.status, s.status);
        assert_eq!(own.connected_at, s.connected_at);
        assert_eq!(own.server_info, s.server_info);
        assert_eq!(own.error, s.error);
    }
}

#[test]
fn repair_reconnects_disconnected_client() {
    let mut m: McpClientManager<u32> = McpClientManager::new();
    m.initialize_client_at("c".to_string(), 1, server(), at(5)).unwrap();
    m.disconnect_client("c").unwrap();
    let r = m.repair_client_at("c", at(50)).unwrap();
    assert_eq!(r.status, ClientStatus::Connected);
    assert_eq!(r.connected_at, Some(at(50)));
    assert_eq!(*m.get_client("c").unwrap(), 1);
}

#[test]
fn repair_leaves_connected_client_alone() {
    let mut m: McpClientManager<u32> = McpClientManager::new();
    m.initialize_client_at("c".to_string(), 1, server(), at(5)).unwrap();
    let r = m.repair_client_at("c", at(50)).unwrap();
    assert_eq!(r.connected_at, Some(at(5)));
    assert_eq!(m.get_client_status("c").unwrap().connected_at, Some(at(5)));
    assert_eq!(
        m.repair_client("nobody").unwrap_err(),
        RegistryError::NotFound("nobody".to_string())
    );
}

#[test]
fn repair_with_clock_stamps_connection() {
    let mut m: McpClientManager<u32> = McpClientManager::new();
    m.initialize_client_at("c".to_string(), 1, server(), at(5)).unwrap();
    m.disconnect_client("c").unwrap();
    let r = m.repair_client("c").unwrap();
    assert_eq!(r.status, ClientStatus::Connected);
    assert!(r.connected_at.is_some());
}

#[test]
fn error_status_reports_its_message() {
    assert_eq!(
        ClientStatus::Error("boom".to_string()).error_message(),
        Some("boom".to_string())
    );
    assert_eq!(ClientStatus::Connected.error_message(), None);
}

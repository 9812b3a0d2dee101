use hub_transport::config::LOOPBACK_V4;
use hub_transport::{
    McpHttpConfig, SessionStorage, SocketAddress, StdioConfig, TransportConfig, WebSocketConfig,
};
use std::path::PathBuf;

#[test]
fn loopback_is_127_0_0_1() {
    assert_eq!(LOOPBACK_V4, u32::from_be_bytes([127, 0, 0, 1]));
    assert_eq!(
        SocketAddress::loopback(8888),
        SocketAddress::V4 { ipv4: 0x7F00_0001, port: 8888 }
    );
}

#[test]
fn loopback_keeps_the_extreme_ports() {
    assert_eq!(SocketAddress::loopback(0), SocketAddress::V4 { ipv4: LOOPBACK_V4, port: 0 });
    assert_eq!(
        SocketAddress::loopback(u16::MAX),
        SocketAddress::V4 { ipv4: LOOPBACK_V4, port: 65535 }
    );
}

#[test]
fn websocket_config_binds_loopback_at_the_port() {
    let config = WebSocketConfig::new(4444);
    assert_eq!(config.addr, SocketAddress::V4 { ipv4: LOOPBACK_V4, port: 4444 });
}

#[test]
fn stdio_config_defaults_to_a_buffer_of_1024() {
    assert_eq!(StdioConfig::default().subscription_buffer_size, 1024);
}

#[test]
fn session_storage_defaults_to_memory() {
    assert!(matches!(SessionStorage::default(), SessionStorage::InMemory));
}

#[test]
fn mcp_http_config_binds_loopback_with_sessions_in_memory() {
    let config = McpHttpConfig::new(8889);
    assert_eq!(config.addr, SocketAddress::V4 { ipv4: LOOPBACK_V4, port: 8889 });
    assert!(matches!(config.session_storage, SessionStorage::InMemory));
}

#[test]
fn with_sqlite_selects_the_persistent_store_and_keeps_the_address() {
    let config = McpHttpConfig::new(8889).with_sqlite(PathBuf::from("/var/lib/hub/sessions.db"));
    assert_eq!(config.addr, SocketAddress::loopback(8889));
    match config.session_storage {
        SessionStorage::Sqlite { path } => {
            assert_eq!(path, PathBuf::from("/var/lib/hub/sessions.db"))
        }
        SessionStorage::InMemory => panic!("the persistent store was asked for"),
    }
}

#[test]
fn transport_config_defaults_to_nothing_enabled() {
    let config = TransportConfig::default();
    assert!(config.websocket.is_none());
    assert!(config.stdio.is_none());
    assert!(config.mcp_http.is_none());
}

#[test]
fn a_cloned_configuration_holds_the_same_values() {
    let config = TransportConfig {
        websocket: Some(WebSocketConfig::new(1)),
        stdio: Some(StdioConfig { subscription_buffer_size: 7 }),
        mcp_http: Some(McpHttpConfig::new(2).with_sqlite(PathBuf::from("s.db"))),
    };
    let copy = config.clone();
    assert_eq!(copy.websocket.unwrap().addr, SocketAddress::loopback(1));
    assert_eq!(copy.stdio.unwrap().subscription_buffer_size, 7);
    let http = copy.mcp_http.unwrap();
    assert_eq!(http.addr, SocketAddress::loopback(2));
    match http.session_storage {
        SessionStorage::Sqlite { path } => assert_eq!(path, PathBuf::from("s.db")),
        SessionStorage::InMemory => panic!("the persistent store was asked for"),
    }
}

#[test]
fn an_ipv6_address_is_held_as_given() {
    let addr = SocketAddress::V6 { ipv6: 1, port: 443, flowinfo: 5, scope_id: 9 };
    let config = WebSocketConfig { addr };
    assert_eq!(config.addr, SocketAddress::V6 { ipv6: 1, port: 443, flowinfo: 5, scope_id: 9 });
    assert_ne!(config.addr, SocketAddress::V4 { ipv4: 1, port: 443 });
}

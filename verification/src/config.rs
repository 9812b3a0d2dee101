//! Configuration values for the three transports.

use std::path::PathBuf;
use vstd::prelude::*;

verus! {

/// `std::path::PathBuf`, declared so that a path can be carried through.
/// Nothing is said of what a path holds.
#[verifier::external_type_specification]
#[verifier::external_body]
pub struct ExPathBuf(PathBuf);

/// `Clone::clone` of `std::path::PathBuf`. Taken on trust: the copy is the
/// same path as the one cloned.
pub assume_specification[ <PathBuf as Clone>::clone ](path: &PathBuf) -> (copy: PathBuf)
    ensures
        copy == *path,
;

/// The IPv4 loopback host `127.0.0.1`, as the 32-bit number of its four octets.
pub const LOOPBACK_V4: u32 = 0x7F00_0001;

/// A socket address as plain integers.
///
/// An IPv4 host is the big-endian number of its four octets, an IPv6 host the
/// big-endian number of its sixteen.
#[derive(Debug, Clone, Copy, PartialEq, Eq, Structural)]
pub enum SocketAddress {
    V4 { ipv4: u32, port: u16 },
    V6 { ipv6: u128, port: u16, flowinfo: u32, scope_id: u32 },
}

impl SocketAddress {
    /// The address `127.0.0.1:<port>`.
    pub open spec fn spec_loopback(port: u16) -> SocketAddress {
        SocketAddress::V4 { ipv4: LOOPBACK_V4, port }
    }

    /// The address `127.0.0.1:<port>`.
    #[verifier::when_used_as_spec(spec_loopback)]
    pub fn loopback(port: u16) -> (addr: SocketAddress)
        ensures
            addr == SocketAddress::spec_loopback(port),
    {
        SocketAddress::V4 { ipv4: LOOPBACK_V4, port }
    }
}

/// Settings of the socket transport.
#[derive(Debug, Clone)]
pub struct WebSocketConfig {
    pub addr: SocketAddress,
}

impl WebSocketConfig {
    /// The socket transport bound to the loopback address at `port`.
    pub fn new(port: u16) -> (config: WebSocketConfig)
        ensures
            config.addr == SocketAddress::loopback(port),
    {
        WebSocketConfig { addr: SocketAddress::loopback(port) }
    }
}

/// Settings of the line-delimited transport.
#[derive(Debug, Clone)]
pub struct StdioConfig {
    /// How many notifications of one request may wait to be forwarded.
    pub subscription_buffer_size: usize,
}

impl Default for StdioConfig {
    fn default() -> (config: StdioConfig)
        ensures
            config.subscription_buffer_size == 1024,
    {
        StdioConfig { subscription_buffer_size: 1024 }
    }
}

/// Where the streaming-HTTP transport keeps its sessions.
#[derive(Debug, Clone)]
pub enum SessionStorage {
    /// Sessions live in memory and are lost on restart.
    InMemory,
    /// Sessions are kept in a database file and survive restarts.
    Sqlite { path: PathBuf },
}

impl Default for SessionStorage {
    fn default() -> (storage: SessionStorage)
        ensures
            storage == SessionStorage::InMemory,
    {
        SessionStorage::InMemory
    }
}

/// Settings of the streaming-HTTP transport.
#[derive(Debug, Clone)]
pub struct McpHttpConfig {
    pub addr: SocketAddress,
    pub session_storage: SessionStorage,
}

impl McpHttpConfig {
    /// The streaming-HTTP transport bound to the loopback address at `port`,
    /// with its sessions in memory.
    pub fn new(port: u16) -> (config: McpHttpConfig)
        ensures
            config.addr == SocketAddress::loopback(port),
            config.session_storage == SessionStorage::InMemory,
    {
        McpHttpConfig {
            addr: SocketAddress::loopback(port),
            session_storage: SessionStorage::default(),
        }
    }

    /// The same transport with its sessions kept in the database file at `path`.
    pub fn with_sqlite(self, path: PathBuf) -> (config: McpHttpConfig)
        ensures
            config.addr == self.addr,
            config.session_storage == (SessionStorage::Sqlite { path }),
    {
        let mut config = self;
        config.session_storage = SessionStorage::Sqlite { path };
        config
    }
}

/// Which transports are enabled, and how each is set up. A transport whose
/// entry is `None` is disabled; enabling none is allowed.
#[derive(Debug, Clone)]
pub struct TransportConfig {
    pub websocket: Option<WebSocketConfig>,
    pub stdio: Option<StdioConfig>,
    pub mcp_http: Option<McpHttpConfig>,
}

impl Default for TransportConfig {
    fn default() -> (config: TransportConfig)
        ensures
            config.websocket is None,
            config.stdio is None,
            config.mcp_http is None,
    {
        TransportConfig { websocket: None, stdio: None, mcp_http: None }
    }
}

impl TransportConfig {
    /// Whether an enabled transport consumes the method registry: the socket
    /// transport and the line-delimited transport do, the streaming-HTTP
    /// transport does not.
    pub open spec fn needs_registry(self) -> bool {
        self.websocket is Some || self.stdio is Some
    }
}

} // verus!

//! Transport layer for a request-handling service.
//!
//! One service object is exposed over up to three wire transports: a socket
//! transport, a line-delimited transport over the standard streams, and a
//! streaming-HTTP transport. This crate holds the rules of that layer: which
//! transports a configuration enables, when the shared method registry is
//! built, in what order the transports are started and awaited, how a line is
//! framed, and what the diagnostic HTTP routes answer. Performing the I/O is
//! left to the caller, who carries out the actions these rules hand out and
//! reports back what happened.

pub mod config;
pub mod error;
pub mod mcp;
pub mod orchestrator;
pub mod server;
pub mod stdio;
pub mod websocket;

pub use config::{
    McpHttpConfig, SessionStorage, SocketAddress, StdioConfig, TransportConfig, WebSocketConfig,
};
pub use error::TransportError;
pub use server::{TransportServer, TransportServerBuilder};

//! The streaming-HTTP transport.

pub mod server;

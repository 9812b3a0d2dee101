[package]
name = "hub_transport"
version = "0.1.0"
edition = "2021"
publish = false

[dependencies]
anyhow = "=1.0.104"
axum = "=0.8.9"
futures = "=0.3.34"
jsonrpsee = { version = "=0.26.1", features = ["server"] }
plexus-core = "=0.6.1"
rmcp = { version = "=0.12.0", features = ["server", "transport-streamable-http-server"] }
tokio = { version = "=1.54.1", features = ["full"] }
tracing = "=0.1.44"

[dev-dependencies]
serde_json = "=1.0.154"

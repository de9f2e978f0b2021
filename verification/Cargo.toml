[package]
name = "mcp_channel"
version = "0.1.0"
edition = "2021"
publish = false

[dependencies]
rmcp = { version = "=0.15.0", default-features = false, features = ["base64", "client", "macros", "schemars", "server"] }
schemars = "=0.8.22"
serde = { version = "=1.0.229", features = ["derive"] }
serde_json = "=1.0.154"
tokio = { version = "=1.54.1", features = ["sync", "rt"] }
tracing = "=0.1.44"

[package]
name = "domeneshop_mcp"
version = "0.1.0"
edition = "2021"
publish = false

[dependencies]
anyhow = "1"
axum = "*"
reqwest = { version = "*", default-features = false }
rmcp = { version = "*", features = ["server", "macros", "transport-streamable-http-server"] }
schemars = "*"
serde = { version = "1", features = ["derive"] }
serde_json = "1"
tokio = { version = "1", features = ["macros", "rt-multi-thread", "net", "signal"] }
tokio-util = "*"
tracing = "0.1"
tracing-subscriber = { version = "0.3", features = ["env-filter"] }

[package]
name = "rbx_studio_mcp"
version = "0.1.0"
edition = "2021"
publish = false

[dependencies]
uuid = { version = "=1.27.0", features = ["v4"] }
axum = "=0.8.9"
tokio = { version = "=1.53.2", features = ["full"] }
clap = { version = "=4.6.7", features = ["derive"] }
rmcp = { version = "=3.5.0", features = ["server", "transport-io"] }
serde = { version = "=1.0.229", features = ["derive"] }
serde_json = "=1.0.151"
tracing = "=0.1.44"
tracing-subscriber = { version = "=0.3.23", features = ["env-filter"] }
roblox_install = "=1.2.0"

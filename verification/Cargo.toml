[package]
name = "codex_master"
version = "0.1.0"
edition = "2021"
publish = false

[dependencies]
agent-client-protocol = "0.9"
anyhow = "=1.0.104"
async-trait = "=0.1.92"
axum = { version = "=0.7.9", features = ["ws"] }
futures-util = "=0.3.34"
rustls = { version = "=0.23.46", default-features = false, features = ["ring", "std", "tls12"] }
serde = { version = "=1.0.229", features = ["derive"] }
serde_json = "=1.0.154"
tokio = { version = "=1.54.1", features = ["full"] }
tokio-tungstenite = { version = "=0.30.0", features = ["rustls-tls-webpki-roots"] }
tokio-util = { version = "=0.7.20", features = ["compat"] }
uuid = { version = "=1.29.0", features = ["v4"] }

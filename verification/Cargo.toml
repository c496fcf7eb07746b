[package]
name = "messaggero"
version = "0.1.0"
edition = "2021"
publish = false

[dependencies]
bytes = "1"
uuid = { version = "1", features = ["v4"] }
serde = { version = "1", features = ["derive"] }
serde_json = "1"
bincode = "1"
tokio = { version = "1", features = ["full"] }
tokio-util = { version = "0.7", features = ["codec"] }
futures-util = { version = "0.3", features = ["sink"] }
async-trait = "0.1"
axum = "0.7"
reqwest = { version = "0.12", default-features = false, features = ["json"] }
thiserror = "1"
tracing = "0.1"

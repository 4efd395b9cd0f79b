[package]
name = "open_ai_rust"
version = "1.0.0"
edition = "2021"
publish = false

[dependencies]
serde = { version = "=1.0.229", features = ["derive"] }
serde_json = "=1.0.154"
reqwest = { version = "=0.12.28", default-features = false, features = ["json", "multipart", "stream", "rustls-tls"] }
tokio = { version = "=1.54.1", features = ["time"] }
futures-core = "=0.3.34"
futures-util = "=0.3.34"
async-stream = "=0.3.6"
bytes = "=1.12.1"
thiserror = "=1.0.69"
linkme = "=0.3.37"

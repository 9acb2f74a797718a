[package]
name = "sakura-ai-rs"
version = "0.1.0"
edition = "2021"
publish = false

[dependencies]
url = "2"
chrono = "0.4"
ollama-rs = { version = "0.3", features = ["stream"] }
reqwest = { version = "0.12", default-features = false, features = ["json", "stream", "rustls-tls"] }
secrecy = "0.10"
serde = { version = "1", features = ["derive"] }
serde_json = "1"
async-stream = "0.3"
tokio-stream = "0.1"

[dev-dependencies]
tokio = { version = "1", features = ["macros", "rt-multi-thread"] }

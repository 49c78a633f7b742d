[package]
name = "vertere"
version = "0.1.0"
edition = "2021"
publish = false

[dependencies]
anyhow = "1"
async-channel = "2"
base64 = "0.22"
futures-util = "0.3"
gtk4 = { version = "0.9", features = ["v4_12"] }
gtk4-layer-shell = "0.4"
ksni = "0.3"
openrouter-rs = "*"
rusqlite = { version = "*", features = ["bundled"] }
serde = { version = "1", features = ["derive"] }
serde_json = "1"
tokio = { version = "1", features = ["rt-multi-thread", "time", "macros"] }

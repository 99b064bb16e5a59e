[package]
name = "cube_terminal"
version = "0.1.0"
edition = "2021"
publish = false

[dependencies]
base64 = "0.22"
serde_json = "1"
serde = { version = "1", features = ["derive"] }
axum = { version = "0.8", features = ["ws"] }
reqwest = { version = "0.12", default-features = false, features = ["json", "stream"] }
tokio = { version = "1", features = ["sync", "time", "macros", "rt"] }
futures = "0.3"
bytes = "1"
tracing = "0.1"
anyhow = "1"

[package]
name = "flox_core"
version = "0.1.0"
edition = "2021"
publish = false

[dependencies]
toml = "*"
serde_json = "*"
serde = { version = "*", features = ["derive"] }
thiserror = "*"
tempfile = "*"
axum = "*"
clap = { version = "*", features = ["derive"] }
tokio = { version = "*", features = ["full"] }
futures = "*"
http = "*"
reqwest = { version = "*", features = ["stream"] }
bytes = "*"
fork_stream = "*"
google-cloud-storage = "*"
once_cell = "*"
tracing-subscriber = "*"

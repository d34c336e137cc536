[package]
name = "karvex"
version = "0.1.0"
edition = "2021"
publish = false

[dependencies]
clap = "4"
interprocess = "2"
serde = { version = "1", features = ["derive"] }
serde_json = "1"
tokio = { version = "1", features = ["rt", "sync", "time"] }
toml = "0.8"
tracing = "0.1"

[package]
name = "orchestrator_service"
version = "0.1.0"
edition = "2021"
publish = false

[dependencies]
uuid = { version = "1", features = ["v4"] }
serde = { version = "1", features = ["derive"] }
serde_json = "1"
tokio = { version = "1", features = ["rt-multi-thread", "sync", "macros", "time"] }
async-trait = "0.1"
thiserror = "1"
tracing = "0.1"
chrono = "0.4"
toml = "0.8"
reqwest = { version = "0.12", default-features = false, features = ["json"] }
prometheus = { version = "0.13", default-features = false }
dashmap = "5"
zmq = "0.10"
clap = { version = "4", features = ["derive"] }
anyhow = "1"

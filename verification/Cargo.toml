[package]
name = "omnishell_orchestrator"
version = "0.1.0"
edition = "2021"
publish = false

[dependencies]
async-trait = "0.1"
chrono = { version = "0.4", default-features = false, features = ["clock"] }
hex = "0.4"
serde = { version = "1", features = ["derive"] }
serde_json = "1"
sha2 = "0.10"
thiserror = "1"
tokio = { version = "1", features = ["sync", "time", "rt", "rt-multi-thread", "macros"] }
tracing = "0.1"
uuid = { version = "1", features = ["v4"] }

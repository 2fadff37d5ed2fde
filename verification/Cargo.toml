[package]
name = "rollout_migration"
version = "0.1.0"
edition = "2021"
publish = false

[dependencies]
chrono = "0.4"
same-file = "1"
serde = { version = "1", features = ["derive"] }
serde_json = "1"
tokio = { version = "1", features = ["fs", "io-util", "rt", "sync", "time"] }
tracing = "0.1"
uuid = { version = "1", features = ["v5"] }
zstd = "0.13"

[dev-dependencies]
tempfile = "3"

[package]
name = "sql_report"
version = "0.1.0"
edition = "2021"
publish = false

[dependencies]
sqlparser = "=0.58.0"
clap = { version = "=4.6.7", features = ["cargo"] }
tokio = { version = "=1.54.1", features = ["macros", "rt-multi-thread", "fs", "io-util"] }
serde = { version = "=1.0.229", features = ["derive"] }
serde_json = "=1.0.154"
chrono = { version = "=0.4.45", features = ["serde"] }
uuid = { version = "=1.29.0", features = ["serde"] }
azure_core = "=1.1.0"
azure_identity = "=1.0.0"

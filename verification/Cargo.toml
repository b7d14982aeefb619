[package]
name = "ironclaw"
version = "0.1.0"
edition = "2021"
publish = false

[dependencies]
async-trait = "=0.1.92"
axum = "=0.8.9"
chrono = { version = "=0.4.45", features = ["serde"] }
libsql = { version = "=0.10.0", default-features = false, features = ["core"] }
monty = "=0.0.23"
monty-types = "=0.0.23"
ratatui = { version = "=0.29.0", default-features = false }
serde = { version = "=1.0.229", features = ["derive"] }
serde_json = "=1.0.154"
sha2 = "=0.10.9"
tokio = { version = "=1.54.1", features = ["rt", "sync", "time", "macros"] }
tracing = "=0.1.44"
unicode-width = "=0.2.0"
uuid = { version = "=1.29.0", features = ["v4", "serde"] }

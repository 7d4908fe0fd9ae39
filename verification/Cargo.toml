[package]
name = "accounting_core"
version = "0.1.0"
edition = "2021"
publish = false

[dependencies]
rust_decimal = "=1.43.0"
uuid = { version = "=1.29.0", features = ["v4", "v5", "serde"] }
chrono = { version = "=0.4.45", default-features = false, features = ["clock", "serde", "std"] }
serde = { version = "=1.0.229", features = ["derive"] }
serde_json = "=1.0.154"
thiserror = "=1.0.69"
anyhow = "=1.0.104"
tracing = "=0.1.44"
tokio = { version = "=1.54.1", default-features = false, features = ["rt", "macros"] }
sqlx = { version = "=0.7.4", default-features = false, features = ["postgres", "runtime-tokio", "uuid", "chrono", "rust_decimal"] }

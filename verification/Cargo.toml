[package]
name = "performance"
version = "0.1.0"
edition = "2021"
publish = false

[dependencies]
uuid = { version = "=1.29.1", features = ["v4", "serde"] }
chrono = { version = "=0.4.45", features = ["serde"] }
rust_decimal = { version = "=1.43.0", features = ["serde"] }
serde = { version = "=1.0.229", features = ["derive"] }
serde_json = "=1.0.154"
thiserror = "=1.0.69"
tracing = "=0.1.44"
axum = "=0.7.9"
sqlx = { version = "=0.8.6", default-features = false, features = ["postgres", "runtime-tokio", "uuid", "chrono", "rust_decimal", "json"] }
backbone-core = "=3.19.0"
backbone-orm = "=3.19.0"
backbone-auth = { version = "=3.19.0", features = ["axum"] }

[package]
name = "billing"
version = "0.1.0"
edition = "2021"
publish = false

[dependencies]
ring = "=0.17.14"
hex = "=0.4.3"
chrono = { version = "=0.4.45", features = ["serde"] }
anyhow = "=1.0.104"
axum = "=0.7.9"
serde = { version = "=1.0.229", features = ["derive"] }
serde_json = "=1.0.154"
sqlx = { version = "=0.7.4", default-features = false, features = ["postgres", "chrono", "runtime-tokio", "macros"] }
reqwest = { version = "=0.12.28", default-features = false, features = ["json", "rustls-tls"] }
tracing = "=0.1.44"

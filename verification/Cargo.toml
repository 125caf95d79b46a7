[package]
name = "kong_admin"
version = "0.1.0"
edition = "2021"
publish = false

[dependencies]
deadpool-postgres = "*"
openssl = "0.10"
postgres-openssl = "0.5"
serde = { version = "1", features = ["derive"] }
serde_json = "1"
tokio = { version = "1", features = ["full"] }
tokio-postgres = "0.7"
tracing = "0.1"
tracing-subscriber = { version = "0.3", features = ["env-filter"] }

[package]
name = "calagopus-mcp"
version = "1.2.1"
edition = "2021"
publish = false

[dependencies]
async-trait = "=0.1.92"
axum = "=0.8.9"
chrono = "=0.4.45"
futures-util = "=0.3.34"
reqwest = { version = "=0.12.28", default-features = false, features = ["json", "rustls-tls"] }
semver = "=1.0.28"
serde = { version = "=1.0.229", features = ["derive"] }
serde_json = "=1.0.154"
sqlx = { version = "=0.8.6", default-features = false, features = ["runtime-tokio", "postgres", "chrono", "uuid"] }
tokio = { version = "=1.54.1", features = ["io-util", "time"] }
tracing = "=0.1.44"
utoipa-axum = "=0.2.0"
uuid = { version = "=1.29.0", features = ["v4"] }

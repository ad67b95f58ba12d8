[package]
name = "tradebot"
version = "0.1.0"
edition = "2021"
publish = false

[dependencies]
anyhow = "1"
async-nats = { version = "0.38", default-features = false, features = ["ring"] }
axum = { version = "0.8", features = ["ws"] }
base64 = "0.22"
chrono = { version = "0.4", features = ["serde"] }
dashmap = "6"
dotenvy = "0.15"
envy = "0.4"
fred = { version = "10", default-features = false, features = ["i-std"] }
futures-util = "0.3"
metrics = "0.24"
metrics-exporter-prometheus = { version = "0.16", default-features = false, features = ["http-listener"] }
reqwest = { version = "0.12", default-features = false, features = ["json"] }
rsa = { version = "0.9", features = ["sha2"] }
rust_decimal = { version = "1", features = ["serde"] }
rustls = { version = "0.23", default-features = false, features = ["ring", "std"] }
serde = { version = "1", features = ["derive"] }
serde_json = "1"
sha2 = { version = "0.10", features = ["oid"] }
sqlx = { version = "0.8", default-features = false, features = ["runtime-tokio", "postgres", "chrono"] }
thiserror = "2"
tokio = { version = "1", features = ["full"] }
tokio-tungstenite = { version = "0.26", default-features = false, features = ["connect", "handshake"] }
tokio-util = "0.7"
tracing = "0.1"
tracing-subscriber = { version = "0.3", features = ["env-filter", "json"] }
urlencoding = "2"

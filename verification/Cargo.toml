[package]
name = "nostr_rss"
version = "0.1.0"
edition = "2021"
publish = false

[dependencies]
rss = "=2.1.2"
nostr-sdk = "=0.45.4"
axum = "=0.8.9"
tokio = { version = "=1.53.2", features = ["full"] }
serde = { version = "=1.0.229", features = ["derive"] }
tracing-subscriber = "=0.3.23"
reqwest = { version = "*", default-features = false, features = ["rustls-tls", "json"] }

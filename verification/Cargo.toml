[package]
name = "bot"
version = "0.1.0"
edition = "2021"
publish = false

[dependencies]
anyhow = "1"
env_logger = "0.10"
itertools = "0.10"
log = "0.4"
pulldown-cmark = { version = "0.9", default-features = false }
rand = "0.8"
reqwest = { version = "0.11", default-features = false, features = ["gzip", "json", "rustls-tls"] }
serde = { version = "1", features = ["derive"] }
serde_json = "1"
tokio = { version = "1", features = ["fs", "macros", "rt-multi-thread"] }

[package]
name = "zapper"
version = "0.1.0"
edition = "2021"
publish = false

[dependencies]
anyhow = "1"
nostr-sdk = "=0.20.1"
reqwest = { version = "0.11", default-features = false, features = ["json", "rustls-tls"] }
serde = { version = "1", features = ["derive"] }
serde_yaml = "0.9"
tokio = { version = "1", features = ["macros", "rt-multi-thread"] }
tonic_lnd = "0.5"
urlencoding = "=2.1.3"

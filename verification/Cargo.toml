[package]
name = "expiring_cache"
version = "0.1.0"
edition = "2021"
publish = false

[dependencies]
anyhow = "1"
bincode = "2"
log = "0.4"
moka = { version = "0.12", features = ["sync"] }
serde = { version = "1", features = ["derive"] }

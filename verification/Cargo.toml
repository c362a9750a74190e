[package]
name = "beacon_indexer"
version = "0.1.0"
edition = "2021"
publish = false

[dependencies]
rmp-serde = "=1.3.1"
serde = { version = "=1.0.229", features = ["derive"] }
serde_json = "=1.0.151"
flate2 = "=1.1.10"
tokio = { version = "=1.53.2", features = ["full"] }
futures = "=0.3.34"
reqwest = { version = "=0.13.5", default-features = false }
log = "=0.4.34"
ctrlc = "=3.5.2"
oneshot = { version = "=0.2.1", features = ["std"] }
bytes = "=1.12.1"

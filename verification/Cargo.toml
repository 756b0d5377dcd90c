[package]
name = "peer_sync"
version = "0.1.0"
edition = "2021"
publish = false

[dependencies]
data-encoding = "=2.11.1"
rand = "=0.8.8"
iroh-gossip = { version = "=0.35.0", default-features = false }
serde = { version = "1", features = ["derive"] }
serde_json = "1"
tokio = { version = "1", features = ["rt-multi-thread", "sync", "time"] }
futures-util = "0.3"
notify = "6"
anyhow = "1"
thiserror = "1"
log = "0.4"

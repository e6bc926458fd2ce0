[package]
name = "cluster_hooks"
version = "0.1.0"
edition = "2021"
publish = false

[dependencies]
anyhow = "=1.0.104"
async-trait = "=0.1.92"
base64 = "=0.13.1"
chrono = "=0.4.45"
crossbeam = "=0.8.5"
futures = "=0.3.34"
lazy_static = "=1.5.1"
log = "=0.4.34"
once_cell = "=1.21.4"
parking_lot = "=0.12.5"
reqwest = { version = "=0.11.27", default-features = false, features = ["json"] }
rmqtt = { version = "=0.24.0", features = ["metrics", "plugin", "retain"] }
rmqtt-raft = "=0.8.0"
serde = { version = "=1.0.229", features = ["derive"] }
serde_json = "=1.0.154"
tokio = { version = "=1.54.1", features = ["rt", "rt-multi-thread", "time"] }

[package]
name = "situps_server"
version = "0.1.0"
edition = "2021"
publish = false

[dependencies]
base64 = "=0.21.7"
bson = "=2.15.0"
chrono = { version = "=0.4.45", features = ["serde"] }
futures = "=0.3.34"
log = "=0.4.34"
mongodb = "=2.8.2"
serde = { version = "=1.0.229", features = ["derive"] }
serde_json = { version = "=1.0.154", features = ["preserve_order"] }
serde_with = "=3.24.0"
simplelog = "=0.12.2"
tokio = { version = "=1.54.1", features = ["full"] }
tokio-stream = "=0.1.19"
warp = "=0.3.7"

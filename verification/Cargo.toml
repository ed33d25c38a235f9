[package]
name = "forza_dualsense"
version = "0.1.0"
edition = "2021"
publish = false

[dependencies]
crc32fast = "=1.5.4"
serde = { version = "=1.0.229", features = ["derive"] }
serde_json = "=1.0.154"
anyhow = "=1.0.104"
dirs = "=5.0.1"
parking_lot = "=0.12.5"
clap = { version = "=4.6.7", features = ["derive"] }
tokio = { version = "=1.54.1", features = ["rt-multi-thread", "net", "time", "macros", "signal", "sync"] }
tracing = "=0.1.44"
tracing-subscriber = { version = "=0.3.23", features = ["env-filter"] }
hidapi = { version = "=2.6.7", default-features = false, features = ["linux-native-basic-udev"] }
axum = { version = "=0.8.9", features = ["ws"] }
self_update = "=1.3.3"

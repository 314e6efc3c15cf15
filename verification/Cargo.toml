[package]
name = "openbolo"
version = "0.1.0"
edition = "2021"
publish = false

[dependencies]
anyhow = "=1.0.104"
chrono = "=0.4.45"
dirs = "=5.0.1"
futures-util = "=0.3.34"
log = "=0.4.35"
parking_lot = "=0.12.5"
rdev = { version = "=0.5.3", features = ["unstable_grab"] }
reqwest = { version = "=0.12.28", default-features = false, features = ["stream", "rustls-tls"] }
serde = { version = "=1.0.229", features = ["derive"] }
serde_json = "=1.0.154"
tokio = { version = "=1.54.1", features = ["sync", "rt", "time", "fs", "io-util", "macros"] }
whisper-rs = "=0.15.1"

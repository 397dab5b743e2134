[package]
name = "dictation_capture"
version = "0.1.0"
edition = "2021"
publish = false

[dependencies]
anyhow = "1"
base64 = "0.22"
cpal = "0.15"
crossbeam-channel = "0.5"
enigo = "0.2"
hound = "3.5"
parking_lot = "0.12"
reqwest = { version = "0.12", features = ["json", "multipart"] }
serde = { version = "1", features = ["derive"] }
serde_json = "1"
tokio = { version = "1", features = ["fs", "time"] }
uuid = { version = "1", features = ["v4"] }

[package]
name = "voice-transcribe"
version = "0.1.0"
edition = "2021"
publish = false

[dependencies]
chrono = { version = "0.4", features = ["serde"] }
cpal = "0.15"
crossbeam-channel = "0.5"
dirs = "6"
enigo = "0.6"
num_cpus = "1"
parking_lot = "0.12"
realfft = "3"
rusqlite = { version = "0.37", features = ["bundled"] }
serde = { version = "1", features = ["derive"] }
serde_json = "1"
thiserror = "2"
tracing = "0.1"
tracing-subscriber = { version = "0.3", features = ["env-filter"] }
uuid = { version = "1", features = ["v4", "serde"] }
whisper-rs = "0.15"
zbus = "5"

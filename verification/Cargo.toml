[package]
name = "ralf-gesture-studio"
version = "0.1.0"
edition = "2021"
publish = false

[dependencies]
serde = { version = "1", features = ["derive"] }
serde_json = "1"
chrono = { version = "0.4", features = ["serde"] }
uuid = { version = "1", features = ["v4", "serde"] }
directories = "5"
thiserror = "1"
rand = "0.8"
rosc = "0.10"
crossbeam-channel = "0.5"
tokio = { version = "1", features = ["net", "time", "rt-multi-thread", "macros"] }
rodio = "0.19"

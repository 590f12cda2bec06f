[package]
name = "wb_switch_core"
version = "0.1.0"
edition = "2021"
publish = false

[dependencies]
chrono = "0.4"
serde_json = "1"
sha1 = "0.10"
tokio = { version = "1", features = ["time", "rt", "macros"] }
uuid = { version = "1", features = ["v4"] }

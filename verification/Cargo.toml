[package]
name = "hdc-rs"
version = "0.1.0"
edition = "2021"
publish = false

[dependencies]
bytes = "1"
thiserror = "1"
tokio = { version = "1", features = ["net", "io-util", "time", "rt", "rt-multi-thread"] }
tracing = "0.1"

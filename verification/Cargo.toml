[package]
name = "terraform-wrapper"
version = "0.1.0"
edition = "2021"
publish = false

[dependencies]
serde = { version = "1", features = ["derive"] }
serde_json = "1"
tokio = { version = "1", features = ["process", "time", "io-util", "rt-multi-thread", "macros"] }
tracing = "0.1"
which = "*"
tempfile = "3"
thiserror = "*"

[package]
name = "session_engine"
version = "0.1.0"
edition = "2021"
publish = false

[dependencies]
sha1 = "0.10"
tokio = { version = "1", features = ["rt-multi-thread", "net", "io-util", "time"] }

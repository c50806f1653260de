[package]
name = "stream_download"
version = "0.1.0"
edition = "2021"
publish = false

[dependencies]
futures-util = "0.3"
indicatif = "0.17"
reqwest = { version = "0.12", features = ["stream"] }
tokio = { version = "1", features = ["macros", "rt-multi-thread"] }

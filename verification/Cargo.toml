[package]
name = "stream_proxy"
version = "0.1.0"
edition = "2021"
publish = false

[dependencies]
bytes = "1"
m3u8-rs = "6"
reqwest = "0.12"
serde = { version = "1", features = ["derive"] }
serde_json = "1"
tokio = { version = "1", features = ["macros", "rt-multi-thread"] }
url = "2"
urlencoding = "2"

[package]
name = "hueston"
version = "0.1.0"
edition = "2021"
publish = false

[dependencies]
rand = "0.7"
clap = "2"
error-chain = "0.12"
human-panic = "1"
maplit = "1"
reqwest = { version = "0.9", default-features = false }
serde = { version = "1", features = ["derive"] }
serde_json = "1"
serde-xml-rs = "0.3"
ssdp = "0.7"

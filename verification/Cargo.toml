[package]
name = "webex_courier"
version = "0.1.0"
edition = "2021"
publish = false

[dependencies]
reqwest = { version = "0.12", features = ["blocking", "multipart"] }
serde_json = "1"

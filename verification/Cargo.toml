[package]
name = "hackchat"
version = "0.1.0"
edition = "2021"
publish = false

[dependencies]
serde_json = "1"
websocket = { version = "*", default-features = false, features = ["sync"] }

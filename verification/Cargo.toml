[package]
name = "zed_dart"
version = "0.1.0"
edition = "2021"
publish = false

[dependencies]
zed_extension_api = "0.6"
tungstenite = "0.26"

[dev-dependencies]
serde_json = "1"

[package]
name = "zed_xmake"
version = "0.1.0"
edition = "2021"
publish = false

[dependencies]
serde = { version = "1", features = ["derive"] }
serde_json = "1"
zed_extension_api = "0.7.0"

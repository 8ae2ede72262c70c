[package]
name = "depth_stream"
version = "0.1.0"
edition = "2021"
publish = false

[dependencies]
serde_json = "1"
tungstenite = "*"
url = "2"

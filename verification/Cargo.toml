[package]
name = "media_bridge"
version = "0.1.0"
edition = "2021"
publish = false

[dependencies]
base64 = "0.22"
mpris = "2"
reqwest = { version = "0.12", features = ["blocking"] }

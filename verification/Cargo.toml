[package]
name = "guest_boundary"
version = "0.1.0"
edition = "2021"
publish = false

[dependencies]
base64 = "0.22"
serde_json = { version = "1", features = ["float_roundtrip"] }

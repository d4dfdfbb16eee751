[package]
name = "endpoint_sec"
version = "0.1.0"
edition = "2021"
publish = false

[dependencies]
endpoint-sec-sys = { version = "=0.6.2", features = ["macos_13_3_0"] }

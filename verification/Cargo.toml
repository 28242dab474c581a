[package]
name = "turn_authenticator"
version = "0.1.0"
edition = "2021"
publish = false

[dependencies]
lazy_static = "1"
prometheus = "0.14"
tokio = { version = "1", features = ["full"] }
tracing = "0.1"
tracing-subscriber = "0.3"
turn = "*"
webrtc-util = "*"

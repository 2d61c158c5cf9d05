[package]
name = "safe_monitor"
version = "0.1.0"
edition = "2021"
publish = false

[dependencies]
xcap = "*"
image = { version = "*", default-features = false }
tokio = { version = "*", features = ["rt", "rt-multi-thread", "macros"] }
tracing = "*"

[package]
name = "ferris_control"
version = "0.1.0"
edition = "2021"
publish = false

[dependencies]
frcrs = "*"
tokio = { version = "1", features = ["rt", "time"] }

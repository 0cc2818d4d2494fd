[package]
name = "relaxed_channel"
version = "0.1.0"
edition = "2021"
publish = false

[dependencies]
async-channel = "*"
futures = "*"
tokio = { version = "*", features = ["rt", "time"] }

[package]
name = "emoji-clock-2"
version = "0.1.0"
edition = "2021"
publish = false

[dependencies]
chrono = { version = "0.4", default-features = false }
time = { version = "0.3", default-features = false }

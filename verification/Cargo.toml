[package]
name = "radio"
version = "0.1.0"
edition = "2021"
publish = false

[dependencies]
tokio-util = "=0.7.20"
tokio = { version = "=1.54.1", features = ["rt", "rt-multi-thread"] }
iced = { version = "=0.13.1", default-features = false, features = ["tiny-skia", "tokio"] }
serde = { version = "=1.0.229", features = ["derive"] }
serde_json = "=1.0.154"
ureq = "2"
symphonia = { version = "0.5", features = ["mp3", "aac"] }

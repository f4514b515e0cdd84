[package]
name = "corpusflow"
version = "0.1.0"
edition = "2021"
publish = false

[dependencies]
hound = "3.5"
rustfft = "6"
serde = { version = "1", features = ["derive"] }
serde_json = "1"

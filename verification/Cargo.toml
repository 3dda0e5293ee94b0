[package]
name = "mercer_voice"
version = "0.1.0"
edition = "2021"
publish = false

[dependencies]
serde = { version = "1", features = ["derive"] }
serde_json = "1"
hound = "3"
reqwest = { version = "0.12", features = ["multipart", "stream"] }
tokio = { version = "1", features = ["rt", "fs", "time", "io-util"] }
futures-util = "0.3"
arboard = { version = "3", default-features = false }
rdev = "0.5"
mouse_position = "0.1"

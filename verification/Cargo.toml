[package]
name = "transcriber"
version = "0.1.0"
edition = "2021"
publish = false

[dependencies]
hound = "3.5"
libc = "0.2"
serde = { version = "1", features = ["derive"] }
whisper-rs = "0.11"
whisper-rs-sys = "*"

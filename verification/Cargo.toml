[package]
name = "vivid"
version = "0.1.0"
edition = "2021"
publish = false

[dependencies]
portable-pty = "*"
libc = "*"
parking_lot = "*"
serde = { version = "*", features = ["derive"] }

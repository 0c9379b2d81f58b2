[package]
name = "suave"
version = "0.1.0"
edition = "2021"
publish = false

[dependencies]
tokio = { version = "1", features = ["fs", "io-util", "time", "rt", "macros"] }
arboard = { version = "3", default-features = false }
libc = "0.2"

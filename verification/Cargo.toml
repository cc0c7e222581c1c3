[package]
name = "twin_mice"
version = "0.1.0"
edition = "2021"
publish = false

[dependencies]
evdev = { version = "0.12", features = ["tokio"] }
futures-util = "0.3"
libc = "0.2"
tokio = { version = "1", features = ["rt", "macros"] }

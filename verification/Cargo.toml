[package]
name = "coroutine"
version = "0.1.0"
edition = "2021"
publish = false

[dependencies]
generator = "=0.8.10"
libc = "=0.2.190"
socket2 = { version = "=0.6.5", features = ["all"] }

[package]
name = "async_io"
version = "0.1.0"
edition = "2021"
publish = false

[dependencies]
libc = "*"
futures-lite = "*"
socket2 = "*"

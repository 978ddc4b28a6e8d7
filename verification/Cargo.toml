[package]
name = "http_muncher"
version = "0.3.0"
edition = "2021"
publish = false

[dependencies]
ascii = "*"
libc = "*"

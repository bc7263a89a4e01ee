[package]
name = "uring"
version = "0.1.0"
edition = "2021"
publish = false

[dependencies]
rustix = { version = "*", features = ["io_uring", "fs", "mm"] }

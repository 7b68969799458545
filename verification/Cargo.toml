[package]
name = "zygiskd"
version = "0.1.0"
edition = "2021"
publish = false

[dependencies]
libc = "*"
rustix = { version = "*", features = ["net", "pipe", "thread", "fs", "process"] }
procfs = { version = "*", default-features = false }

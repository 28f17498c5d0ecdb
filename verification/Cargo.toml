[package]
name = "iou"
version = "0.1.0"
edition = "2021"
publish = false

[dependencies]
bitflags = "2"
libc = "0.2"
nix = { version = "0.27", features = ["event", "fs", "mman", "net", "poll", "socket", "uio"] }

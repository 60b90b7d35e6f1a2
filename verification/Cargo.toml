[package]
name = "passthrough_fs"
version = "0.1.0"
edition = "2021"
publish = false

[dependencies]
caps = "0.5"
libc = "0.2"
nix = { version = "0.30", features = ["ioctl"] }

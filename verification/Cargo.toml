[package]
name = "linux-video"
version = "0.1.0"
edition = "2021"
publish = false

[dependencies]
dcv-color-primitives = "*"
drm-fourcc = "*"
nix = { version = "*", features = ["ioctl", "mman", "fs"] }
clap = { version = "*", features = ["derive"] }

[package]
name = "swan_ag"
version = "0.1.0"
edition = "2021"
publish = false

[dependencies]
time = "0.1"
libc = "0.2"
argparse = "0.2"
libudev-sys = "0.1"
nix = { version = "*", features = ["ioctl"] }
input = "*"

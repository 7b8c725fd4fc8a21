[package]
name = "dumb_init"
version = "0.1.0"
edition = "2021"
publish = false

[dependencies]
getopts = "*"
regex = "*"
nix = { version = "*", features = ["fs", "ioctl", "process", "signal"] }
libc = "*"
ioctl-rs = "*"

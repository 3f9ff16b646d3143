[package]
name = "ping"
version = "0.1.0"
edition = "2021"
publish = false

[dependencies]
internet-checksum = "=0.2.1"
nix = { version = "=0.29.0", features = ["socket", "net"] }

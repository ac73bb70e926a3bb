[package]
name = "nodenet_native"
version = "0.1.0"
edition = "2021"
publish = false

[dependencies]
nix = { version = "0.30", features = ["socket", "net", "uio", "fs", "time", "poll", "event"] }
rustix = { version = "1", features = ["net", "fs", "std"] }

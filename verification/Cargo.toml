[package]
name = "appimage_runtime"
version = "0.1.0"
edition = "2021"
publish = false

[dependencies]
anyhow = "=1.0.104"
backhand = "=0.18.0"
fuser = "=0.14.0"
nix = { version = "=0.31.3", features = ["process", "signal", "fs"] }
rustix = { version = "=1.1.5", features = ["pipe"] }
squashfuse-rs = "=0.3.0"
tempfile = "=3.27.0"

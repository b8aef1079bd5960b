[package]
name = "vgp_device"
version = "0.1.0"
edition = "2021"
publish = false

[dependencies]
libc = "=0.2.191"
log = "=0.4.34"
nix = "=0.22.3"
tokio = { version = "=1.54.1", default-features = false, features = ["sync"] }
vigem-client = "*"

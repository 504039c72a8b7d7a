[package]
name = "cgman"
version = "0.1.0"
edition = "2021"
publish = false

[dependencies]
nix = { version = "=0.31.3", features = ["feature", "event"] }
cgroups = "=0.1.0"
libc = "=0.2.190"
procfs = "=0.18.0"
prometheus = "=0.14.0"
lazy_static = "=1.5.1"

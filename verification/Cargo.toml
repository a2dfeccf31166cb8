[package]
name = "clone_spawn"
version = "0.1.0"
edition = "2021"
publish = false

[dependencies]
libc = "0.2"
nix = { version = "0.27.1", features = ["mman", "process", "signal", "user"] }

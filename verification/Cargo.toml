[package]
name = "shared_mutex"
version = "0.1.0"
edition = "2021"
publish = false

[dependencies]
anyhow = "*"
libc = "*"
memmap2 = "*"
nix = "*"

[package]
name = "zdict_safe"
version = "0.1.0"
edition = "2021"
publish = false

[dependencies]
zstd-sys = "2"

[package]
name = "yolox-burn"
version = "0.1.0"
edition = "2021"
publish = false

[dependencies]
burn = { version = "=0.12.1", default-features = false }
bincode = { version = "=2.0.0-rc.3", default-features = false }

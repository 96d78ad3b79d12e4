[package]
name = "tararchiver"
version = "0.1.0"
edition = "2021"
publish = false

[dependencies]
flate2 = "1"
lz4 = "*"
tar = "0.4"
xz2 = { version = "0.1", features = ["static"] }
zstd = "*"

[package]
name = "multicodec"
version = "0.1.0"
edition = "2021"
publish = false

[dependencies]
flate2 = "=1.1.10"
brotli = { version = "=9.0.0", features = ["portable-float"] }
bzip2 = "=0.6.1"
xz2 = { version = "=0.1.7", features = ["static"] }

[package]
name = "openrgb2"
version = "0.1.0"
edition = "2021"
publish = false

[dependencies]
array2d = "0.3"
tracing = "0.1"

[package]
name = "ma5_native"
version = "0.1.0"
edition = "2021"
publish = false

[dependencies]
libloading = "0.8"

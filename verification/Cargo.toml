[package]
name = "wasmedge_sdk"
version = "0.1.0"
edition = "2021"
publish = false

[dependencies]
wasmedge-sys = { version = "=0.17.5", default-features = false }
wasmedge-types = "=0.4.4"

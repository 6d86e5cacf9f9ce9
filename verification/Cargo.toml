[package]
name = "wasmex"
version = "0.1.0"
edition = "2021"
publish = false

[dependencies]
wasmi = { version = "=2.0.0", default-features = false, features = ["std", "validate", "simd"] }
rustler = "=0.38.0"

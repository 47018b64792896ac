[package]
name = "brotli_codec"
version = "0.1.0"
edition = "2021"
publish = false

[dependencies]
brotli = { version = "=9.0.0", features = ["portable-float"] }
wasm-bindgen = "=0.2.129"

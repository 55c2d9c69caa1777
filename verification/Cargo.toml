[package]
name = "wasm-audio"
version = "0.1.0"
edition = "2021"
publish = false

[dependencies]
pitch-detection = "0.1"
wasm-bindgen = "0.2"

[package]
name = "yolo_wasm"
version = "0.1.0"
edition = "2021"
publish = false

[dependencies]
wasm-bindgen = "0.2"

[dev-dependencies]
serde_json = "1"

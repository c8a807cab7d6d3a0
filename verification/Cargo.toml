[package]
name = "raster_ops"
version = "0.1.0"
edition = "2021"
publish = false

[dependencies]
image = { version = "0.25", default-features = false, features = ["png", "jpeg", "webp"] }
wasm-bindgen = "0.2"
console_error_panic_hook = "0.1"

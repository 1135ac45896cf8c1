[package]
name = "js-function-promisify"
version = "0.1.0"
edition = "2021"
publish = false

[dependencies]
wasm-bindgen = "=0.2.92"
js-sys = "=0.3.69"

[package]
name = "async_threadrr"
version = "0.1.0"
edition = "2021"
publish = false

[dependencies]
flume = "0.11"
strum = { version = "0.26", features = ["derive"] }
wasm-bindgen = "0.2"

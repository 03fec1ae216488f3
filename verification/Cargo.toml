[package]
name = "argon_host"
version = "0.1.0"
edition = "2021"
publish = false

[dependencies]
argon2 = { version = "0.5", features = ["std"] }
wasm-bindgen = "0.2"
console_error_panic_hook = "0.1"

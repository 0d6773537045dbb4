[package]
name = "render_facade"
version = "0.1.0"
edition = "2021"
publish = false

[dependencies]
serde_json = "*"
tera = "*"
wasm-bindgen = "*"
console_error_panic_hook = "*"

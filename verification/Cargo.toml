[package]
name = "toolkit"
version = "0.1.0"
edition = "2021"
publish = false

[dependencies]
async-trait = "=0.1.92"
c2pa = { version = "=0.77.1", default-features = false, features = ["rust_native_crypto"] }
console_error_panic_hook = "=0.1.7"
console_log = "=1.1.0"
js-sys = "=0.3.106"
log = "=0.4.34"
serde = { version = "=1.0.229", features = ["derive"] }
serde_bytes = "=0.11.19"
serde_json = "=1.0.154"
serde-wasm-bindgen = "=0.6.5"
wasm-bindgen = "=0.2.129"
wasm-bindgen-futures = "=0.4.79"

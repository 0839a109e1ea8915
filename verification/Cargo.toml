[package]
name = "totp_engine"
version = "0.1.0"
edition = "2021"
publish = false

[dependencies]
rust-crypto = "=0.2.36"
yew = "=0.18.0"
wasm-bindgen = { version = "=0.2.129", features = ["serde-serialize"] }
wasm-bindgen-futures = "=0.4.79"
js-sys = "=0.3.106"
serde = { version = "=1.0.229", features = ["derive"] }
serde_json = "=1.0.154"
log = "=0.4.34"
wasm-logger = "=0.2.0"
console_error_panic_hook = "=0.1.7"

[dev-dependencies]
oath = "=0.1.4"

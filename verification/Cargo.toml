[package]
name = "xchacha20_poly1305_wasm"
version = "0.1.0"
edition = "2021"
publish = false

[dependencies]
chacha20poly1305 = "0.10"
getrandom = { version = "0.2", features = ["js"] }
thiserror = "1"
wasm-bindgen = "0.2"
js-sys = "0.3"
wasm-bindgen-futures = "0.4"

[package]
name = "hook_bridge"
version = "0.1.0"
edition = "2021"
publish = false

[dependencies]
rapier2d = { version = "=0.36.0", features = ["unsync-callbacks"] }
js-sys = "=0.3.106"
wasm-bindgen = "=0.2.129"

[package]
name = "dplayer_ui"
version = "0.1.0"
edition = "2021"
publish = false

[dependencies]
seed = "=0.9.2"
serde = { version = "=1.0.229", features = ["derive"] }
wasm-bindgen = "=0.2.100"

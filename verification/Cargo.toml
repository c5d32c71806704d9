[package]
name = "dynamic_html"
version = "0.1.0"
edition = "2021"
publish = false

[dependencies]
pathdiff = "0.2"
regex = "1"
serde = { version = "1", features = ["derive"] }
serde_json = "1"
wasm-bindgen = "0.2"

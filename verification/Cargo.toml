[package]
name = "geo_data"
version = "0.1.0"
edition = "2021"
publish = false

[dependencies]
brotli-decompressor = "*"
wasm-bindgen = "*"
lazy_static = "*"

[dev-dependencies]
brotli = "*"

[package]
name = "preprocessor_bridge"
version = "0.1.0"
edition = "2021"
publish = false

[dependencies]
serde = { version = "*", features = ["derive"] }
serde_json = "*"
swc_common = { version = "*", features = ["concurrent"] }
swc_ecma_ast = { version = "*", features = ["serde-impl"] }
swc_ecma_parser = "*"
swc_error_reporters = "*"
wasm-bindgen = "*"
js-sys = "*"
serde-wasm-bindgen = "*"

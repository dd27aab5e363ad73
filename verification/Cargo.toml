[package]
name = "egui_luminance"
version = "0.1.0"
edition = "2021"
publish = false

[dependencies]
console_error_panic_hook = "0.1"
egui = "0.12"
luminance = "0.43"
luminance-derive = "0.6"
luminance-front = "0.3"
luminance-web-sys = "0.2"
nalgebra = "0.26"
ncollide3d = "0.29"
wasm-bindgen = "0.2"
web-sys = { version = "0.3", features = ["console"] }

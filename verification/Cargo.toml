[package]
name = "rgba_filters"
version = "0.1.0"
edition = "2021"
publish = false

[dependencies]
rayon = "1"
wasm-bindgen = "0.2"
web-sys = { version = "0.3", features = ["CanvasRenderingContext2d", "HtmlCanvasElement", "ImageData"] }
console_error_panic_hook = "0.1"

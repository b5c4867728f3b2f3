[package]
name = "unicode_explorer"
version = "0.1.0"
edition = "2021"
publish = false

[dependencies]
unicode_names2 = "*"
unic-ucd-category = "*"
unic-ucd-block = "*"
wasm-bindgen = "*"
web-sys = { version = "*", features = ["CanvasRenderingContext2d", "HtmlCanvasElement"] }

[package]
name = "color_smash"
version = "0.1.0"
edition = "2021"
publish = false

[dependencies]
rand = "0.8"
wasm-bindgen = "0.2"
web-sys = { version = "0.3", features = ["CssStyleDeclaration", "Document", "Element", "HtmlButtonElement", "HtmlElement", "HtmlInputElement", "Node", "Window"] }

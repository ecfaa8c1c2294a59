[package]
name = "wx_js_sdk"
version = "0.1.0"
edition = "2021"
publish = false

[dependencies]
wasm-bindgen = "*"
js-sys = "*"
web-sys = { version = "*", features = ["Window", "Location", "Document", "Element", "HtmlElement", "Node"] }
gloo-net = "*"
serde = { version = "*", features = ["derive"] }
serde-wasm-bindgen = "*"
wasm-bindgen-futures = "*"
console_error_panic_hook = "*"
linear-map = { version = "*", features = ["serde_impl"] }

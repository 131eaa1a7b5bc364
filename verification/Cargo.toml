[package]
name = "yew_component_size"
version = "0.1.0"
edition = "2021"
publish = false

[dependencies]
serde = { version = "1", features = ["derive"] }
wasm-bindgen = "0.2"
web-sys = { version = "0.3", features = ["DomRect", "Element", "HtmlIFrameElement", "Window"] }
yew = { version = "0.17", default-features = false, features = ["web_sys"] }

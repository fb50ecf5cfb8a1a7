[package]
name = "browser_mouse"
version = "0.1.0"
edition = "2021"
publish = false

[dependencies]
bevy = { version = "=0.5.0", default-features = false }
gloo = "=0.2.1"
pin-project = "=1.0.12"
wasm-bindgen = "=0.2.129"
web-sys = { version = "=0.3.106", features = ["Document", "Event", "HtmlElement", "MouseEvent", "WheelEvent", "Window"] }

[package]
name = "click_counter"
version = "0.1.0"
edition = "2021"
publish = false

[dependencies]
futures = "0.3"
wasm-bindgen = "0.2"
wasm-bindgen-futures = "0.4"
web-sys = { version = "0.3", features = ["Window", "Document", "Element", "HtmlElement", "Node", "EventTarget", "Event", "console"] }
console_error_panic_hook = "0.1"

[package]
name = "vite_app_core"
version = "0.1.0"
edition = "2021"
publish = false

[dependencies]
console_error_panic_hook = "0.1"
console_log = "1"
js-sys = "0.3"
leptos = { version = "0.8", features = ["csr"] }
leptos_router = "0.8"
log = "0.4"
serde = { version = "1", features = ["derive"] }
wasm-bindgen = "0.2"
wasm-bindgen-futures = "0.4"
web-sys = { version = "0.3", features = ["Document", "Element", "Event", "EventTarget", "HtmlElement", "HtmlInputElement", "MouseEvent", "Window"] }

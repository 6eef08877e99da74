[package]
name = "leptos_animation"
version = "0.1.0"
edition = "2021"
publish = false

[dependencies]
instant = "=0.1.13"
leptos = "=0.4.10"
leptos_router = "=0.4.10"
derive_more = "=0.99.20"
palette = "=0.7.7"
wasm-bindgen = "=0.2.129"
web-sys = { version = "=0.3.106", features = ["CanvasRenderingContext2d", "HtmlCanvasElement", "MouseEvent"] }
console_error_panic_hook = "0.1"
wasm-logger = "0.2"

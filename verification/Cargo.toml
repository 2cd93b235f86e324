[package]
name = "cerena"
version = "0.1.0"
edition = "2021"
publish = false

[dependencies]
bincode = "1.3"
bytemuck = { version = "1", features = ["derive"] }
console_error_panic_hook = "0.1"
env_logger = { version = "0.11", default-features = false }
glam = { version = "0.27", features = ["serde", "bytemuck"] }
js-sys = "0.3"
pollster = "0.3"
serde = { version = "1", features = ["derive"] }
serde_json = "1"
sha2 = "0.10"
thiserror = "1"
tracing = "0.1"
tracing-wasm = "0.2"
wasm-bindgen = "0.2"
wasm-bindgen-futures = "0.4"
web-sys = { version = "0.3", features = ["BinaryType", "Document", "Element", "HtmlCanvasElement", "HtmlElement", "MessageEvent", "Node", "Performance", "WebSocket", "Window"] }
wgpu = { version = "0.20", default-features = false, features = ["wgsl"] }

[package]
name = "shared_assets"
version = "0.1.0"
edition = "2021"
publish = false

[dependencies]
axum = "0.8"
axum-extra = { version = "0.10", features = ["cookie"] }
time = { version = "0.3", features = ["std"] }
rand = "0.9"
regex = "1"
md-5 = "0.10"
ignore = "0.4"
serde_json = "1"
tracing = "0.1"
yew = { version = "0.21", features = ["csr"] }
wasm-bindgen = "0.2"
web-sys = { version = "0.3", features = ["Window", "Document", "HtmlDocument", "Navigator", "Clipboard", "Selection", "HtmlSelectElement", "HtmlInputElement", "KeyboardEvent", "MouseEvent", "Element", "Event", "EventTarget"] }

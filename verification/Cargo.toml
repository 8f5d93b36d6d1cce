[package]
name = "true_rent"
version = "0.1.0"
edition = "2021"
publish = false

[dependencies]
console_error_panic_hook = "*"
js-sys = "*"
serde = { version = "*", features = ["derive"] }
serde_json = "*"
thiserror = "*"
wasm-bindgen = "*"
web-sys = { version = "*", features = ["console", "CssStyleDeclaration", "Document", "Element", "Event", "EventTarget", "HtmlElement", "HtmlInputElement", "HtmlSelectElement", "HtmlTextAreaElement", "MouseEvent", "Node", "Window"] }

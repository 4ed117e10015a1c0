[package]
name = "pstream_frontend"
version = "0.1.0"
edition = "2021"
publish = false

[dependencies]
js-sys = "0.3"
wasm-bindgen = "0.2"
web-sys = { version = "0.3", features = ["Window", "Document", "Element", "HtmlElement", "HtmlIFrameElement", "HtmlVideoElement", "Storage", "Navigator", "Location", "CssStyleDeclaration"] }
serde = { version = "1", features = ["derive"] }
serde_json = "1"

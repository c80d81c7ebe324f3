[package]
name = "fletcher_calc"
version = "0.1.0"
edition = "2021"
publish = false

[dependencies]
wasm-bindgen = "0.2"
js-sys = "0.3"
web-sys = { version = "0.3", features = ["Blob", "console", "Document", "Element", "Event", "EventTarget", "File", "FileList", "FileReader", "HtmlInputElement", "Window"] }

[dev-dependencies]
fletcher = "*"

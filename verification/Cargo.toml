[package]
name = "gloo_file"
version = "0.1.0"
edition = "2021"
publish = false

[dependencies]
mime = "0.3"
wasm-bindgen = "0.2"
js-sys = "0.3"
web-sys = { version = "0.3", features = ["Blob", "BlobPropertyBag", "File", "FilePropertyBag", "FileList", "FileReader", "DomException", "Event", "EventTarget"] }
gloo-events = "0.2"

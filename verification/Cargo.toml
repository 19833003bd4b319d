[package]
name = "bewegung"
version = "0.1.0"
edition = "2021"
publish = false

[dependencies]
urlencoding = "2"
serde = { version = "1", features = ["derive"] }
serde_json = "1"
chrono = "0.4"
once_cell = "1"
tera = "1"
wasm-bindgen = "0.2"
wasm-bindgen-futures = "0.4"
js-sys = "0.3"
serde-wasm-bindgen = "0.6"
sqlite-wasm-rs = "*"
opfs = "*"
web-sys = { version = "0.3", features = ["Window", "Document", "Element", "HtmlElement", "Node", "EventTarget", "Event", "Location", "History", "Url", "UrlSearchParams", "Request", "RequestInit", "Response", "HtmlSelectElement", "HtmlOptionElement", "console", "Navigator", "StorageManager", "FileSystemDirectoryHandle", "FileSystemFileHandle", "FileSystemGetFileOptions", "File", "Blob"] }

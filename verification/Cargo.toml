[package]
name = "sparkplayer"
version = "0.1.0"
edition = "2021"
publish = false

[dependencies]
anyhow = "1"
console_error_panic_hook = "0.1"
js-sys = "*"
libc = "0.2"
ratzilla = "=0.2.0"
wasm-bindgen = "*"
wasm-bindgen-futures = "*"
web-sys = { version = "*", features = ["Blob", "CssStyleDeclaration", "Document", "DomRect", "Element", "Event", "EventTarget", "File", "FileList", "HtmlElement", "HtmlImageElement", "HtmlInputElement", "HtmlMediaElement", "HtmlVideoElement", "Node", "Performance", "Response", "Storage", "Url", "Window"] }
windows-sys = { version = "*", features = ["Win32_Foundation", "Win32_Security", "Win32_System_Memory"] }

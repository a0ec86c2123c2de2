[package]
name = "rpg_core"
version = "0.1.0"
edition = "2021"
publish = false

[dependencies]
wasm-bindgen = "*"
js-sys = "*"
web-sys = { version = "*", features = ["Window", "Document", "Element", "EventTarget", "HtmlCanvasElement", "HtmlImageElement", "HtmlAudioElement", "KeyboardEvent", "WebGlRenderingContext", "WebGlProgram", "WebGlShader", "WebGlBuffer", "WebGlTexture", "WebGlUniformLocation"] }
console_error_panic_hook = "*"
lazy_static = "*"

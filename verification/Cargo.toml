[package]
name = "physsim_viz"
version = "0.1.0"
edition = "2021"
publish = false

[dependencies]
nalgebra = "0.33"
wasm-bindgen = "0.2"
js-sys = "0.3"
web-sys = { version = "0.3", features = ["Window", "Document", "Element", "HtmlCanvasElement", "WebGl2RenderingContext", "WebGlBuffer", "WebGlShader", "WebGlProgram", "WebGlVertexArrayObject", "WebGlUniformLocation", "KeyboardEvent", "console", "EventTarget", "Event", "Node"] }

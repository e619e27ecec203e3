[package]
name = "canvas_demos"
version = "0.1.0"
edition = "2021"
publish = false

[dependencies]
bytemuck = { version = "1", features = ["derive"] }
js-sys = "0.3"
wasm-bindgen = "0.2"
wasm-bindgen-futures = "0.4"
web-sys = { version = "0.3", features = ["CanvasGradient", "CanvasRenderingContext2d", "CssStyleDeclaration", "Document", "Element", "EventTarget", "HtmlCanvasElement", "HtmlElement", "ImageData", "KeyboardEvent", "MouseEvent", "Node", "Performance", "Touch", "TouchEvent", "TouchList", "Window", "console"] }
wgpu = { version = "28", default-features = false, features = ["std", "parking_lot", "webgl", "wgsl"] }

[package]
name = "wgpucube"
version = "0.1.0"
edition = "2021"
publish = false

[dependencies]
bytemuck = { version = "=1.25.2", features = ["derive"] }
egui = "=0.33.3"
egui-wgpu = "=0.33.3"
egui-winit = "=0.33.3"
glam = "=0.30.10"
pollster = "=0.4.0"
tracing = "=0.1.44"
tracing-subscriber = "=0.3.23"
wasm-bindgen = "=0.2.129"
wasm-bindgen-futures = "=0.4.79"
wasm-tracing = "*"
web-sys = { version = "=0.3.106", features = ["Document", "Element", "HtmlCanvasElement", "Window"] }
wgpu = "=27.0.1"
winit = "=0.30.13"

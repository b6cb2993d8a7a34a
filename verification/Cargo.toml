[package]
name = "winit_windowing"
version = "0.1.0"
edition = "2021"
publish = false

[dependencies]
bevy_a11y = "0.15"
bevy_ecs = "0.15"
bevy_hierarchy = "0.15"
bevy_log = "0.15"
bevy_utils = "0.15"
bevy_window = "0.15"
raw-window-handle = "0.6"
wasm-bindgen = "0.2"
web-sys = { version = "0.3", features = ["Document", "Element", "HtmlCanvasElement", "Window"] }
winit = { version = "0.30", default-features = false, features = ["rwh_06", "x11"] }

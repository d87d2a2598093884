[package]
name = "sensor_window"
version = "0.1.0"
edition = "2021"
publish = false

[dependencies]
futures-util = "0.3"
gloo-timers = { version = "0.2", features = ["futures"] }
serde = { version = "1", features = ["derive"] }
serde-wasm-bindgen = "0.4"
serde_derive = "1"
tokio = { version = "1", features = ["macros", "rt-multi-thread"] }
toml = "0.5"
warp = "0.3"
wasm-bindgen = "0.2"
wasm-bindgen-futures = "0.4"
web-sys = { version = "0.3", features = ["console", "Document", "Element", "EventTarget", "Headers", "Location", "MouseEvent", "Node", "Request", "RequestInit", "RequestMode", "Response", "Window"] }

[package]
name = "connect4"
version = "0.1.0"
edition = "2021"
publish = false

[dependencies]
serde = { version = "1", features = ["derive"] }
serde_json = "1"
uuid = { version = "1", features = ["v4"] }
rocket = { version = "0.5", features = ["json"] }
mongodb = "2"
dotenv = "0.15"
yew = "0.19"
yew-router = "0.16"
stylist = { version = "0.10", features = ["yew_integration"] }
reqwasm = "0.5"
gloo-events = "0.1"
wasm-bindgen = "0.2"
wasm-bindgen-futures = "0.4"
web-sys = { version = "0.3", features = ["Window", "Storage", "Event", "EventTarget", "EventSource", "MessageEvent", "HtmlInputElement", "MouseEvent"] }

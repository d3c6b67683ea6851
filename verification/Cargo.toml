[package]
name = "ws_echo"
version = "0.1.0"
edition = "2021"
publish = false

[dependencies]
gloo = "0.8"
js-sys = "0.3"
leptos = { version = "0.4", features = ["csr"] }
log = "0.4"
rand = "0.8"
thiserror = "1"
wasm-bindgen = "0.2"
web-sys = { version = "0.3", features = ["BinaryType", "Event", "MessageEvent", "WebSocket"] }

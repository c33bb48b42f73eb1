[package]
name = "yew_material"
version = "0.1.0"
edition = "2021"
publish = false

[dependencies]
yew = "=0.18.0"
gloo = "=0.2.1"
wasm-bindgen = "=0.2.129"
web-sys = { version = "=0.3.106", features = ["Element", "Node", "Event", "EventTarget", "CustomEvent", "ValidityState", "Window", "Document"] }
js-sys = "=0.3.106"

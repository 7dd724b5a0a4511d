[package]
name = "worker_relay"
version = "0.1.0"
edition = "2021"
publish = false

[dependencies]
dioxus = "0.3"
dioxus-web = "0.3"
js-sys = "0.3"
log = "0.4"
wasm-bindgen = "0.2"
wasm-logger = "0.2"
web-sys = { version = "0.3", features = ["DedicatedWorkerGlobalScope", "MessageEvent", "Worker", "WorkerGlobalScope", "WorkerOptions", "WorkerType"] }

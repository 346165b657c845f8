[package]
name = "spectre"
version = "0.1.0"
edition = "2021"
publish = false

[dependencies]
chrono = { version = "0.4", features = ["serde"] }
clap = { version = "4", features = ["derive", "env"] }
dioxus = { version = "0.6", features = ["web", "router"] }
dirs = "5"
futures = "0.3"
gloo-timers = { version = "0.3", features = ["futures"] }
hmac = "0.12"
js-sys = "0.3"
rpassword = "7"
scrypt = { version = "0.11", default-features = false }
serde = { version = "1", features = ["derive"] }
serde_json = "1"
sha2 = "0.10"
thiserror = "1"
wasm-bindgen = "0.2"
wasm-bindgen-futures = "0.4"
web-sys = { version = "0.3", features = ["Blob", "Clipboard", "MessageEvent", "Navigator", "Url", "Window", "Worker"] }

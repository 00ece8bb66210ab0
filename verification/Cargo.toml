[package]
name = "kline"
version = "0.1.0"
edition = "2021"
publish = false

[dependencies]
chrono = { version = "=0.4.45", default-features = false, features = ["std"] }
egui = { version = "=0.21.0", features = ["persistence"] }
eframe = { version = "0.21", default-features = false, features = ["glow", "persistence"] }
serde = { version = "1", features = ["derive"] }
poll-promise = "=0.2.1"
reqwest = { version = "=0.11.27", default-features = false, features = ["json"] }
wasm-bindgen-futures = "0.4"
web-sys = { version = "0.3", features = ["console"] }
console_error_panic_hook = "0.1"
tracing-wasm = "0.2"

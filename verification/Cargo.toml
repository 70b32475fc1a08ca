[package]
name = "softies"
version = "0.1.0"
edition = "2021"
publish = false

[dependencies]
rand = "0.8"
nalgebra = "0.33"
rapier2d = "0.22"
egui = "0.27"
serde = { version = "1", features = ["derive"] }
tracing = "0.1"
tracing-subscriber = "0.3"
tracing-wasm = "0.2"
console_error_panic_hook = "0.1"

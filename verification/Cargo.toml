[package]
name = "gesture_gate"
version = "0.1.0"
edition = "2021"
publish = false

[dependencies]
csv = "1"
serde = { version = "1", features = ["derive"] }
dirs = "5"
winit = "0.28"
rodio = "0.17"

[package]
name = "raes"
version = "0.1.0"
edition = "2021"
publish = false

[dependencies]
anyhow = "1"
notify = "6"
parking_lot = "0.12"
raw-window-handle = "0.5"
ron = "0.8"
serde = { version = "1", features = ["derive"] }
thiserror = "1"
tokio = { version = "1", features = ["fs", "rt", "rt-multi-thread", "sync", "time"] }
winit = "0.28"

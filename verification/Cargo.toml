[package]
name = "mouse_battery"
version = "0.1.0"
edition = "2021"
publish = false

[dependencies]
hidapi = "=2.6.7"
serde = { version = "=1.0.229", features = ["derive"] }

[package]
name = "alvr_dashboard"
version = "0.1.0"
edition = "2021"
publish = false

[dependencies]
egui = "=0.37.0"
eframe = { version = "=0.37.0", default-features = false, features = ["x11", "glow", "default_fonts"] }
serde = { version = "=1.0.229", features = ["derive"] }
serde_json = "=1.0.154"

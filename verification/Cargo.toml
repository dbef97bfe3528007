[package]
name = "rustrando"
version = "0.1.0"
edition = "2021"
publish = false

[dependencies]
serde_json = "=1.0.154"
serde = { version = "=1.0.229", features = ["derive"] }
uuid = { version = "=1.29.0", features = ["v4"] }
eframe = { version = "=0.24.1", default-features = false, features = ["default_fonts", "glow", "x11"] }
egui_extras = { version = "=0.24.2", default-features = false, features = ["file", "image"] }
env_logger = { version = "=0.11.11", default-features = false }
tungstenite = "0.21"

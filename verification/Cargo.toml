[package]
name = "octarou"
version = "0.1.0"
edition = "2021"
publish = false

[dependencies]
rand = "=0.8.8"
anyhow = "=1.0.104"
thiserror = "=1.0.69"
log = "=0.4.34"
eframe = { version = "=0.27.2", default-features = false, features = ["default_fonts", "glow"] }
egui = "=0.27.2"
egui_logger = "=0.4.4"
futures = "=0.3.34"
rfd = { version = "0.14", default-features = false, features = ["xdg-portal", "tokio"] }

[package]
name = "nes_backend"
version = "0.1.0"
edition = "2021"
publish = false

[dependencies]
minifb = { version = "0.29", default-features = false, features = ["x11"] }
eframe = { version = "0.37", default-features = false, features = ["default_fonts", "glow", "x11"] }
egui = { version = "0.37", default-features = false, features = ["default_fonts"] }
rfd = "0.17"
serde = { version = "1", features = ["derive"] }
thiserror = "2"
log = "0.4"

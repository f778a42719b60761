[package]
name = "openmcp"
version = "0.1.0"
edition = "2021"
publish = false

[dependencies]
dirs = "*"
serde = { version = "1", features = ["derive"] }
serde_json = "1"
egui = { version = "*", default-features = false, features = ["default_fonts"] }
eframe = { version = "*", default-features = false, features = ["default_fonts", "glow", "x11"] }

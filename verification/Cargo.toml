[package]
name = "wclicker"
version = "0.1.0"
edition = "2021"
publish = false

[dependencies]
evdev = "0.12"
serde = { version = "1", features = ["derive"] }
toml = "0.8"
egui = "0.29"
eframe = { version = "0.29", default-features = false, features = ["default_fonts", "glow", "x11"] }

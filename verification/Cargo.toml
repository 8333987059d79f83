[package]
name = "skylanders"
version = "0.1.0"
edition = "2021"
publish = false

[dependencies]
aes = "0.7"
block-modes = "0.8"
crc = "3"
md-5 = "0.10"
eframe = { version = "0.29", default-features = false, features = ["default_fonts", "glow", "x11"] }
egui = { version = "0.29", default-features = false }
rfd = "0.15"

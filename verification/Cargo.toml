[package]
name = "chess_app"
version = "0.1.0"
edition = "2021"
publish = false

[dependencies]
shakmaty = "=0.29.4"
anyhow = "=1.0.104"
egui = "=0.37.0"
eframe = { version = "=0.37.0", default-features = false, features = ["glow", "x11", "default_fonts"] }
resvg = { version = "=0.49.0", default-features = false }
usvg = { version = "=0.49.0", default-features = false }
tiny-skia = "=0.12.0"

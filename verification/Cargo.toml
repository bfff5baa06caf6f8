[package]
name = "live_watch"
version = "0.1.0"
edition = "2021"
publish = false

[dependencies]
walkdir = "2"
notify = "6"
egui = "0.24"
eframe = { version = "0.24", default-features = false, features = ["glow", "x11"] }

[dev-dependencies]
tempfile = "3"

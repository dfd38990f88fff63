[package]
name = "worldtwist"
version = "0.1.0"
edition = "2021"
publish = false

[dependencies]
cgmath = "*"
png = "*"
egui = "*"
eframe = { version = "*", default-features = false, features = ["glow"] }

[package]
name = "kinderdisco"
version = "0.1.0"
edition = "2021"
publish = false

[dependencies]
anyhow = "1"
async-std = "1"
confy = "0.5"
eframe = { version = "0.22", default-features = false, features = ["glow"] }
egui = "0.22"
futures = "0.3"
huelib = "0.13"
num-traits = "0.2"
random = "*"
serde = { version = "1", features = ["derive"] }

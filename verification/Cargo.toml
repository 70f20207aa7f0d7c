[package]
name = "raphael"
version = "0.1.0"
edition = "2021"
publish = false

[dependencies]
egui = "*"
log = "*"
serde = { version = "*", features = ["derive"] }

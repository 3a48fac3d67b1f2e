[package]
name = "egui_thematic"
version = "0.1.0"
edition = "2021"
publish = false

[dependencies]
rand = "0.8"
egui = "0.31"

[dev-dependencies]
serde_json = "1"

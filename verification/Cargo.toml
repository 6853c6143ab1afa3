[package]
name = "miku_ui"
version = "0.1.0"
edition = "2021"
publish = false

[dependencies]
egui-phosphor = "*"
serde_json = "1"
serde_yaml = "0.9"

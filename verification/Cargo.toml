[package]
name = "rustario"
version = "0.1.0"
edition = "2021"
publish = false

[dependencies]
macroquad = "0.4"
image = "*"
serde = { version = "1", features = ["derive"] }
serde_json = "1"
lazy_static = "1"

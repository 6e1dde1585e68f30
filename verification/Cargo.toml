[package]
name = "esk"
version = "0.1.0"
edition = "2021"
publish = false

[dependencies]
glam = { version = "=0.27.0", features = ["serde"] }
macroquad = "=0.4.16"
serde = { version = "=1.0.229", features = ["derive"] }

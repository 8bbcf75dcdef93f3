[package]
name = "jjy_core"
version = "0.1.0"
edition = "2021"
publish = false

[dependencies]
chrono = "0.4"
chrono-tz = "0.8"
rppal = { version = "0.17", features = ["hal"] }
embedded-graphics = "0.8"
ssd1306 = "0.8"

[package]
name = "esp32_devkit_v1"
version = "0.1.0"
edition = "2021"
publish = false

[dependencies]
anyhow = "*"
esp32-nimble = "*"
esp-idf-hal = "*"
esp-idf-sys = "*"
log = "*"

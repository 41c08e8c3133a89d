[package]
name = "e32_simulator"
version = "0.1.0"
edition = "2021"
publish = false

[dependencies]
anyhow = "=1.0.104"
esp-idf-hal = "=0.45.2"
esp-idf-sys = "0.36"

[package]
name = "ws2812b"
version = "0.1.0"
edition = "2021"
publish = false

[dependencies]
esp-idf-svc = "0.49"
log = "0.4"
rgb = "0.8"

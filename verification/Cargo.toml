[package]
name = "snapcast_receiver"
version = "0.1.0"
edition = "2021"
publish = false

[dependencies]
anyhow = "=1.0.104"
esp-idf-hal = "=0.45.2"
esp-idf-svc = "=0.51.0"
esp-idf-sys = "=0.36.1"
heapless = "=0.8.0"
log = "=0.4.34"

[package]
name = "esp_openthread"
version = "0.1.0"
edition = "2021"
publish = false

[dependencies]
no-std-net = "=0.6.0"
heapless = "=0.9.3"
critical-section = "=1.2.0"
log = "=0.4.34"

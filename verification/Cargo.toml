[package]
name = "esp32c3_tutorials"
version = "0.1.0"
edition = "2021"
publish = false

[dependencies]
anyhow = "=1.0.104"
critical-section = "1"
crossbeam-channel = "=0.5.17"
crossbeam-queue = "=0.3.14"
crossbeam-utils = "=0.8.23"
embedded-hal = "=0.2.7"
embedded-sdmmc = "0.3"
embedded-svc = "=0.24.0"
esp-idf-hal = "=0.40.1"
esp-idf-svc = "=0.45.0"
esp-idf-sys = "=0.32.1"
hex = "=0.4.3"
mqtt-protocol = "=0.11.2"
nuts = "*"
serde = { version = "=1.0.229", features = ["derive"] }
serde_json = "=1.0.154"
shell-words = "=1.1.1"
statig = "=0.2.0"
sx1509 = "*"
tracing = "0.1"
tracing-subscriber = "0.3"

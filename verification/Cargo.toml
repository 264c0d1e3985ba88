[package]
name = "esp_now_bridge"
version = "0.1.0"
edition = "2021"
publish = false

[dependencies]
anyhow = "=1.0.104"
embassy-time = { version = "=0.5.1", features = ["tick-hz-1_000_000"] }
embassy-usb = { version = "=0.6.0", default-features = false }
env_logger = "=0.11.11"
ergot = { version = "=0.12.0", features = ["nusb-v0_1"] }
log = "=0.4.35"
nusb = "=0.1.14"
tokio = { version = "=1.54.1", features = ["full"] }

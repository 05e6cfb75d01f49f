[package]
name = "blip"
version = "1.0.0"
edition = "2021"
publish = false

[dependencies]
anyhow = "1"
btleplug = "0.11"
env_logger = "0.10"
futures = "0.3"
log = "0.4"
tokio = { version = "1", features = ["macros", "rt-multi-thread", "time", "signal"] }
uuid = "1"
windows = { version = "0.52", features = ["Win32_Foundation", "Win32_Media", "Win32_Media_Audio"] }

[package]
name = "tts_gui"
version = "0.1.0"
edition = "2021"
publish = false

[dependencies]
chrono = "0.4"
crossbeam-channel = "0.5"
eframe = "0.15"
env_logger = "0.9"
log = "0.4"
reqwest = { version = "0.11", features = ["blocking"] }

[package]
name = "komorebi"
version = "0.1.0"
edition = "2021"
publish = false

[dependencies]
regex = "=1.13.1"
serde = { version = "=1.0.229", features = ["derive"] }
serde_json = "=1.0.154"
parking_lot = "=0.12.5"
crossbeam-channel = "=0.5.17"
tracing = "=0.1.44"
color-eyre = "=0.6.5"
random_word = { version = "=0.5.3", features = ["en"] }
eframe = { version = "=0.33.3", default-features = false, features = ["glow", "x11", "default_fonts"] }
egui_extras = { version = "=0.33.3", default-features = false }
which = "8"
dirs = "6"
uds_windows = "1"

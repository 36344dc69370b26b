[package]
name = "tablet_utils"
version = "0.1.0"
edition = "2021"
publish = false

[dependencies]
chrono = "0.4"
clap = { version = "4", features = ["derive"] }
once_cell = "1"
alsa = "0.9"

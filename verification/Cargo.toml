[package]
name = "app_common"
version = "0.1.0"
edition = "2021"
publish = false

[dependencies]
ratatui = "0.29"
crossterm = "0.28"
color-eyre = "0.6"
walkdir = "2"
eframe = { version = "0.31", default-features = false, features = ["default_fonts", "glow", "x11"] }
env_logger = "0.11"
font-kit = "0.14"
memmap2 = "0.9"

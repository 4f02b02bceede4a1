[package]
name = "wallpaper"
version = "0.1.0"
edition = "2021"
publish = false

[dependencies]
clap = { version = "=4.6.7", features = ["derive"] }
windows = { version = "=0.58.0", features = ["Win32_System_Com", "Win32_UI_Shell"] }

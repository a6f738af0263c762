[package]
name = "system_language"
version = "0.1.0"
edition = "2021"
publish = false

[dependencies]
objc = "=0.2.7"
specta = { version = "=1.0.5", features = ["functions"] }
tauri = { version = "=2.12.5", default-features = false }
winreg = "=0.55.0"

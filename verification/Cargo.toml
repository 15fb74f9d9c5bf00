[package]
name = "x360ce"
version = "0.1.0"
edition = "2021"
publish = false

[dependencies]
anyhow = "1"
crossbeam-channel = "0.5"
eframe = { version = "0.37", default-features = false, features = ["glow", "x11", "default_fonts"] }
image = { version = "0.25", default-features = false, features = ["png"] }
reqwest = { version = "0.12", default-features = false, features = ["blocking", "json", "rustls-tls"] }
sdl2 = "0.38"
semver = "1"
serde = { version = "1", features = ["derive"] }
serde_json = "1"
vigem-rust = "0.2"
windows-sys = { version = "0.59", features = ["Win32_Foundation", "Win32_Security", "Win32_System_Threading", "Win32_System_Registry", "Win32_UI_Shell", "Win32_UI_WindowsAndMessaging"] }

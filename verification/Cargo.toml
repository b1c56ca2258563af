[package]
name = "scrcpy-pad"
version = "0.1.0"
edition = "2021"
publish = false

[dependencies]
anyhow = "=1.0.104"
directories = "=6.0.0"
eframe = { version = "=0.37.0", default-features = false, features = ["default_fonts", "glow", "x11"] }
egui = { version = "=0.37.0", default-features = false, features = ["default_fonts"] }
evdev = "=0.13.2"
image = { version = "=0.25.10", default-features = false, features = ["png", "jpeg"] }
pollster = "=1.0.1"
pulldown-cmark = { version = "=0.13.6", default-features = false }
rdev = "*"
rfd = { version = "=0.17.2", default-features = false, features = ["xdg-portal"] }
serde = { version = "1", features = ["derive"] }
serde_json = "1"
windows-sys = { version = "0.59", features = ["Win32_Foundation", "Win32_UI_WindowsAndMessaging"] }

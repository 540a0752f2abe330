[package]
name = "invisiwind"
version = "0.1.0"
edition = "2021"
publish = false

[dependencies]
clap = { version = "=4.6.7", features = ["derive"] }
crossbeam-channel = "=0.5.17"
dll-syringe = "=0.18.2"
eframe = { version = "=0.37.0", default-features = false, features = ["default_fonts", "wgpu"] }
egui_extras = { version = "=0.37.0", default-features = false }
image = { version = "=0.25.10", default-features = false, features = ["ico"] }
tracing = "=0.1.44"
tracing-subscriber = { version = "=0.3.23", features = ["env-filter"] }
windows = { version = "=0.62.2", features = ["Win32_Foundation", "Win32_Graphics_Dwm", "Win32_Graphics_Gdi", "Win32_System_Console", "Win32_UI_WindowsAndMessaging"] }
windows-capture = "=2.0.1"

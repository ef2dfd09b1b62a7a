[package]
name = "dstrafe"
version = "0.1.0"
edition = "2021"
publish = false

[dependencies]
egui = "*"
egui-wgpu = "*"
egui-winit = "*"
env_logger = "*"
log = "*"
pollster = "*"
rdev = "*"
serde = { version = "1", features = ["derive"] }
toml = "*"
wgpu = "*"
windows-sys = { version = "*", features = ["Win32_Foundation", "Win32_System_Console", "Win32_System_LibraryLoader", "Win32_UI_Input_KeyboardAndMouse", "Win32_UI_WindowsAndMessaging"] }
winit = "*"

[package]
name = "autoclicker"
version = "0.1.0"
edition = "2021"
publish = false

[dependencies]
egui = "=0.27.2"
image = { version = "=0.24.9", default-features = false, features = ["png"] }
parking_lot = "=0.12.5"
rdev = "=0.5.3"
windows = { version = "0.52", features = ["Win32_Foundation", "Win32_UI_Input_KeyboardAndMouse", "Win32_UI_WindowsAndMessaging"] }

[package]
name = "mac-connect-client"
version = "0.1.0"
edition = "2021"
publish = false

[dependencies]
byteorder = "1.5"
des = "0.8"
crossbeam-channel = "0.5"
parking_lot = "0.12"
windows-sys = { version = "0.59", features = ["Win32_Foundation", "Win32_UI_Input_KeyboardAndMouse", "Win32_UI_WindowsAndMessaging", "Win32_System_Threading"] }
eframe = { version = "0.29", default-features = false, features = ["glow", "x11", "default_fonts"] }
nokhwa = "0.10"

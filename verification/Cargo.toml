[package]
name = "maple-alarm"
version = "0.1.0"
edition = "2021"
publish = false

[dependencies]
native-windows-gui = "1.0.13"
native-windows-derive = "1.0.5"
windows-sys = { version = "0.59", features = ["Win32_Foundation", "Win32_Graphics_Gdi", "Win32_UI_WindowsAndMessaging", "Win32_UI_HiDpi", "Win32_UI_Input_KeyboardAndMouse"] }

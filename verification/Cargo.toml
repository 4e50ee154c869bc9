[package]
name = "prevent_alt_win_menu"
version = "0.1.0"
edition = "2021"
publish = false

[dependencies]
log = "=0.4.34"
oneshot = { version = "=0.2.1", features = ["std"] }
thiserror = "=2.0.21"
windows = { version = "=0.59.0", features = ["Win32_Foundation", "Win32_System_LibraryLoader", "Win32_UI_Input_KeyboardAndMouse", "Win32_UI_WindowsAndMessaging"] }

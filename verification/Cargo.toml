[package]
name = "sidereal"
version = "0.1.0"
edition = "2021"
publish = false

[dependencies]
ash = "0.37"
tracing = "0.1"
windows = { version = "0.52", features = ["Win32_Foundation", "Win32_System_LibraryLoader", "Win32_UI_HiDpi", "Win32_UI_WindowsAndMessaging"] }

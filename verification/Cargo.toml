[package]
name = "wisplet"
version = "0.2.0"
edition = "2021"
publish = false

[dependencies]
dirs = "6"
png = "0.17"
serde = { version = "1", features = ["derive"] }
serde_json = "1"
windows = { version = "0.58", features = ["Win32_Foundation", "Win32_UI_WindowsAndMessaging", "Win32_Graphics_Gdi", "Win32_UI_Shell", "Win32_Storage_FileSystem"] }

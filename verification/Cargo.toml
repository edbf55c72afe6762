[package]
name = "sd_video_hook"
version = "0.16.0"
edition = "2021"
publish = false

[dependencies]
once_cell = "=1.21.4"
retour = "=0.4.0-alpha.4"
windows = { version = "=0.57.0", features = ["Win32_Foundation", "Win32_Security", "Win32_System_Diagnostics_Debug", "Win32_System_LibraryLoader", "Win32_System_Memory", "Win32_System_Threading"] }

[package]
name = "qpc_time"
version = "0.1.0"
edition = "2021"
publish = false

[dependencies]
once_cell = "=1.21.4"
windows = { version = "=0.48.0", features = ["Win32_Foundation", "Win32_Security", "Win32_System_LibraryLoader", "Win32_System_Performance", "Win32_System_Threading", "Win32_System_WindowsProgramming"] }

[package]
name = "folo"
version = "0.1.0"
edition = "2021"
publish = false

[dependencies]
futures = "0.3"
negative-impl = "0.1"
oneshot = "0.1"
thiserror = "1"
tracing = "0.1"
windows = { version = "0.58", features = ["Win32_Foundation", "Win32_Networking_WinSock", "Win32_Storage_FileSystem", "Win32_System_IO", "Win32_System_WindowsProgramming"] }

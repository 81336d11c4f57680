[package]
name = "disk_health"
version = "0.1.0"
edition = "2021"
publish = false

[dependencies]
colored = "=3.1.1"
windows = { version = "=0.58.0", features = ["Win32_Foundation", "Win32_Storage_FileSystem", "Win32_System_Ioctl", "Win32_System_IO"] }

[package]
name = "birdcage"
version = "0.8.1"
edition = "2021"
publish = false

[dependencies]
log = "=0.4.35"
windows = { version = "=0.56.0", features = ["Win32_Foundation", "Win32_Security", "Win32_Security_Authorization", "Win32_Security_Isolation", "Win32_Storage_FileSystem", "Win32_System_Diagnostics_ToolHelp", "Win32_System_Registry", "Win32_System_SystemServices", "Win32_System_Threading"] }

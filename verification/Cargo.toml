[package]
name = "odp_platform_common"
version = "0.1.0"
edition = "2021"
publish = false

[dependencies]
bincode = "=2.0.1"
log = "=0.4.35"
patina = "=24.1.1"
r-efi = "=7.1.0"
ratatui = "=0.30.2"
scopeguard = "=1.2.0"
scroll = "=0.13.0"
windows = { version = "0.58", features = ["Win32_Devices_DeviceAndDriverInstallation", "Win32_Foundation", "Win32_Security", "Win32_Storage_FileSystem", "Win32_System_IO", "Win32_System_Power"] }

[package]
name = "dial_sync"
version = "0.1.0"
edition = "2021"
publish = false

[dependencies]
regex = "1"
serde = "1"
serde_derive = "1"
serde_yaml = "0.9"
serialport = { version = "4", default-features = false }
windows = { version = "0.48", features = ["Win32_Foundation", "Win32_Media_Audio", "Win32_System_Com", "Win32_System_Com_StructuredStorage", "Win32_Devices_FunctionDiscovery", "Win32_System_ProcessStatus", "Win32_System_Threading", "Win32_UI_Shell_PropertiesSystem"] }

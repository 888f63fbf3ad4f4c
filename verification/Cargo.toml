[package]
name = "tdu2_runtime_patch"
version = "0.1.0"
edition = "2021"
publish = false

[dependencies]
log = "=0.4.35"
fern = "=0.7.1"
chrono = "=0.4.45"
imgui = "=0.10.0"
imgui-dx9-renderer = "=0.10.0"
windows = { version = "=0.44.0", features = ["Win32_Foundation", "Win32_Devices_HumanInterfaceDevice", "Win32_Graphics_Direct3D9"] }
windows-sys = { version = "=0.59.0", features = ["Win32_Foundation", "Win32_System_Memory", "Win32_System_LibraryLoader", "Win32_System_Diagnostics_Debug", "Win32_System_SystemServices", "Win32_System_Threading", "Win32_UI_WindowsAndMessaging"] }

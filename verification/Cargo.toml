[package]
name = "fullscreenizer"
version = "0.1.0"
edition = "2021"
publish = false

[dependencies]
winsafe = { version = "=0.0.29", features = ["gui", "dwm", "advapi"] }
windows = { version = "=0.52.0", features = [
    "Win32_Foundation",
    "Win32_Graphics_Dwm",
    "Win32_Graphics_Gdi",
    "Win32_Graphics_Imaging",
    "Win32_Storage_EnhancedStorage",
    "Win32_Storage_Packaging_Appx",
    "Win32_System_Com",
    "Win32_System_Com_StructuredStorage",
    "Win32_System_Variant",
    "Win32_UI_Shell_PropertiesSystem",
    "Win32_UI_WindowsAndMessaging",
] }

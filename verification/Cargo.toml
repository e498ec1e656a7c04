[package]
name = "nvidia_overlay_hijack"
version = "0.1.0"
edition = "2021"
publish = false

[dependencies]
winapi = { version = "0.3", features = ["d2d1", "dwrite", "dwmapi", "uxtheme", "winuser", "windef", "winerror", "dcommon", "dxgiformat"] }
wio = "0.2"

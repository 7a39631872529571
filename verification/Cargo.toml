[package]
name = "sys-stats"
version = "0.1.0"
edition = "2021"
publish = false

[dependencies]
sysinfo = "=0.33.1"
windows = { version = "=0.61.3", features = ["Win32_Foundation", "Win32_Graphics_Direct2D", "Win32_Graphics_Direct2D_Common", "Win32_Graphics_DirectWrite", "Win32_Graphics_Dxgi_Common", "Win32_Graphics_Gdi", "Win32_System_Com", "Win32_System_ProcessStatus", "Win32_System_Threading", "Win32_UI_Accessibility", "Win32_UI_WindowsAndMessaging", "Win32_System_LibraryLoader"] }

[package]
name = "laermampel"
version = "0.4.0"
edition = "2021"
publish = false

[dependencies]
cpal = "=0.18.2"
directories = "=6.0.0"
eframe = { version = "=0.37.0", default-features = false, features = ["default_fonts", "glow", "x11"] }
hidapi = "=2.6.7"
nnnoiseless = { version = "=0.5.2", default-features = false }
raw-window-handle = "=0.6.2"
ringbuf = "=0.4.8"
rustfft = "=6.4.1"
semver = "=1.0.28"
serde = { version = "=1.0.229", features = ["derive"] }
serde_json = "=1.0.154"
sonora = "=0.2.0"
tray-icon = { version = "*", default-features = false }
ureq = "=3.5.1"
windows = { version = "=0.62.2", features = ["Win32_Foundation", "Win32_Media_Audio", "Win32_Media_Audio_Apo", "Win32_Media_Audio_Endpoints", "Win32_Security", "Win32_Security_Authorization", "Win32_System_Com", "Win32_System_Com_StructuredStorage", "Win32_System_Memory", "Win32_System_Variant", "Win32_UI_Shell_PropertiesSystem"] }
windows-sys = { version = "=0.61.2", features = ["Win32_Foundation", "Win32_Globalization", "Win32_Graphics_Gdi", "Win32_Security", "Win32_System_Registry", "Win32_System_Services", "Win32_System_Threading", "Win32_UI_HiDpi", "Win32_UI_Shell", "Win32_UI_WindowsAndMessaging"] }

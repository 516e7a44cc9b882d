[package]
name = "wlan_engine"
version = "0.1.0"
edition = "2021"
publish = false

[dependencies]
xmlwriter = "=0.1.0"
widestring = "=1.2.1"
windows = { version = "=0.59.0", features = ["Win32_Foundation", "Win32_NetworkManagement_WiFi", "Win32_NetworkManagement_Ndis", "Win32_UI_WindowsAndMessaging"] }
godot = "=0.5.5"
wmi = "=0.18.4"
serde = { version = "=1.0.229", features = ["derive"] }

[package]
name = "reemap"
version = "0.1.0"
edition = "2021"
publish = false

[dependencies]
smallvec = { version = "1", features = ["serde"] }
enum-map = { version = "2", features = ["serde"] }
serde = { version = "1", features = ["derive"] }
strum = { version = "0.27", features = ["derive"] }
num-traits = "0.2"
num-derive = "0.4"
thiserror = "2"
tracing = "0.1"
tracing-subscriber = "0.3"
clap = { version = "4", features = ["derive"] }
etcetera = "*"
ron = "*"
itertools = "*"
oneshot = "*"
windows = { version = "0.61", features = ["Win32_Foundation", "Win32_UI_WindowsAndMessaging", "Win32_UI_Input_KeyboardAndMouse", "Win32_System_Threading", "Win32_UI_Accessibility", "Win32_Security"] }
windows-registry = "0.5"
windows-result = "0.3"
windows-strings = "0.4"
winit = "0.30"
egui = "0.31"
egui_glow = { version = "0.31", features = ["winit"] }
egui_extras = { version = "0.31", default-features = false }
glow = "0.16"
glutin = "0.32"
glutin-winit = "0.5"
tray-icon = "*"
native-dialog = "*"

[package]
name = "drop-agent"
version = "2.3.0"
edition = "2021"
publish = false

[dependencies]
anyhow = "1"
base64 = "0.22"
chrono = { version = "0.4", default-features = false, features = ["clock"] }
discord-presence-rs = "*"
env_logger = { version = "0.11", default-features = false }
futures-util = "0.3"
image = { version = "0.25", default-features = false, features = ["jpeg", "png"] }
log = "0.4"
rustls = { version = "0.23", default-features = false, features = ["ring", "std", "tls12"] }
self_update = { version = "0.42", default-features = false, features = ["rustls"] }
serde = { version = "1", features = ["derive"] }
serde_json = "1"
single-instance = "0.3"
tokio = { version = "1", features = ["rt-multi-thread", "macros", "sync", "time", "net"] }
tokio-tungstenite = { version = "0.26", features = ["rustls-tls-webpki-roots"] }
warp = { version = "0.3", default-features = false }
windows = { version = "0.58", features = ["Win32_Foundation", "Win32_Graphics_Gdi", "Win32_System_LibraryLoader", "Win32_System_ProcessStatus", "Win32_System_Threading", "Win32_UI_Input_KeyboardAndMouse", "Win32_UI_WindowsAndMessaging"] }
winreg = "0.52"

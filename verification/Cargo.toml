[package]
name = "screen_context"
version = "0.1.0"
edition = "2021"
publish = false

[dependencies]
core-graphics = "*"
futures-util = "0.3"
image = { version = "=0.25.10", default-features = false, features = ["jpeg", "png"] }
log = "0.4"
once_cell = "1"
ort = { version = "=2.0.0-rc.12", default-features = false, features = ["load-dynamic"] }
rapidocr-core = { version = "=0.2.2", default-features = false }
reqwest = { version = "=0.12.28", default-features = false, features = ["stream", "rustls-tls"] }
serde = { version = "1", features = ["derive"] }
tokio = { version = "1", features = ["rt-multi-thread", "fs", "io-util", "time", "macros"] }
windows = { version = "0.58", features = ["Foundation", "Foundation_Collections", "Globalization", "Graphics_Imaging", "Media_Ocr", "Storage_Streams", "Win32_Foundation", "Win32_System_Com", "Win32_UI_WindowsAndMessaging"] }

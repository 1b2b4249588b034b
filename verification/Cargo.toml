[package]
name = "singboard"
version = "0.1.0"
edition = "2021"
publish = false

[dependencies]
reqwest = { version = "=0.12.28", default-features = false, features = ["json"] }
serde = { version = "=1.0.229", features = ["derive"] }
serde_json = "=1.0.154"
tokio = { version = "=1.54.1", features = ["fs", "io-util", "process", "rt", "sync", "time"] }
zip = { version = "=2.6.1", default-features = false, features = ["deflate"] }
windows-sys = { version = "=0.59.0", features = ["Win32_Foundation", "Win32_System_Threading", "Win32_System_Services"] }
sha2 = "=0.10.9"
tauri = { version = "=2.12.5", default-features = false }

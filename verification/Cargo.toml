[package]
name = "nssm-rs"
version = "0.1.0"
edition = "2021"
publish = false

[dependencies]
anyhow = "1"
clap = { version = "4", features = ["derive"] }
tracing = "0.1"
tracing-subscriber = { version = "0.3", features = ["env-filter"] }
windows = { version = "0.58", features = ["Win32_System_Console", "Win32_Foundation"] }
windows-service = "0.7"
winreg = "0.52"

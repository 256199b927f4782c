[package]
name = "shazam_tray"
version = "0.1.1"
edition = "2021"
publish = false

[dependencies]
dirs = "5"
png = "0.17"
serde = { version = "1", features = ["derive"] }
serde_json = "1"
sentry = "*"
tao = "*"
tray-icon = "*"
mac-notification-sys = "*"

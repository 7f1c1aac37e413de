[package]
name = "macwifi"
version = "0.1.0"
edition = "2021"
publish = false

[dependencies]
anyhow = "1"
clap = { version = "4", features = ["derive"] }
core-foundation-sys = "0.8"
crossterm = { version = "0.28", features = ["event-stream"] }
dirs = "6"
futures = "0.3"
libc = "0.2"
objc2 = "0.6"
objc2-core-foundation = "0.3"
objc2-core-location = "0.3"
objc2-core-wlan = "0.3"
objc2-foundation = "0.3"
qrcode = { version = "0.14", default-features = false }
ratatui = "0.29"
security-framework = "3"
serde = { version = "1", features = ["derive"] }
serde_json = "1"
tokio = { version = "1", features = ["full"] }
toml = "0.8"
tui-input = "0.11"

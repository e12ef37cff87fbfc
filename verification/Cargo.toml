[package]
name = "mstream_admin"
version = "0.1.0"
edition = "2021"
publish = false

[dependencies]
base64 = "0.22"
clap = { version = "4", features = ["derive"] }
ratatui = "*"
rust-i18n = "*"
serde_json = "1"
tui-input = "*"
url = "2"

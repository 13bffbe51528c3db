[package]
name = "steamguard_qr_login"
version = "0.1.0"
edition = "2021"
publish = false

[dependencies]
rqrr = "*"
image = "*"
serde = { version = "*", features = ["derive"] }
serde_json = "*"
directories = "*"
notify-rust = "*"
webbrowser = "*"
windows-hotkeys = "*"
xcap = "*"

[dev-dependencies]
qrcode = "*"

[package]
name = "gnome_topbar_toggle"
version = "0.1.0"
edition = "2021"
publish = false

[dependencies]
emojis = "0.6"
serde = { version = "1", features = ["derive"] }
serde_json = "1"
dirs = "5"
tracing = "0.1"
tracing-subscriber = "0.3"
gtk = "0.18"
glib = "0.18"
cairo-rs = "0.18"
tray-icon = "0.19"
notify-rust = "4"

[package]
name = "json_buttons"
version = "0.1.0"
edition = "2021"
publish = false

[dependencies]
serde_json = "1"
inotify = { version = "0.9", default-features = false }
x11-clipboard = "*"
gtk = "0.18"
glib = "0.18"

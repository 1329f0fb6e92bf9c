[package]
name = "portal_capture"
version = "0.1.0"
edition = "2021"
publish = false

[dependencies]
anyhow = "1"
dbus = { version = "0.9", features = ["vendored"] }
pipewire = "0.8"
png = "0.17"

[package]
name = "raccoonwm"
version = "0.1.0"
edition = "2021"
publish = false

[dependencies]
anyhow = "1"
nix = "0.19"
x11 = "2"
xcb = "0.9"
xcb-util = { version = "0.3", features = ["ewmh", "icccm", "cursor", "keysyms"] }

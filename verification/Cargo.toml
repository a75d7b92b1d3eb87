[package]
name = "moodle_desktop"
version = "0.1.0"
edition = "2021"
publish = false

[dependencies]
raw-window-handle = "0.6"
window-vibrancy = "0.6"

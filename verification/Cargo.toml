[package]
name = "alacritty_tabs"
version = "0.1.0"
edition = "2021"
publish = false

[dependencies]
alacritty_terminal = "0.25"
glutin = { version = "0.32", default-features = false, features = ["egl", "glx", "x11"] }
log = "0.4"
serde_json = "1"
winit = { version = "0.30", default-features = false, features = ["rwh_06", "x11"] }

[package]
name = "baseview"
version = "0.1.0"
edition = "2021"
publish = false

[dependencies]
raw-window-handle = "0.5"
winapi = { version = "0.3.8", features = ["combaseapi", "guiddef", "minwindef", "ole2", "oleidl", "windef", "winuser"] }

[package]
name = "slint_evdev_input"
version = "0.1.0"
edition = "2021"
publish = false

[dependencies]
evdev = { version = "*", features = ["tokio"] }
slint = { version = "*", default-features = false, features = ["compat-1-2", "std"] }

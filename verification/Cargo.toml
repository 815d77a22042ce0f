[package]
name = "jumpy_core"
version = "0.1.0"
edition = "2021"
publish = false

[dependencies]
kira = { version = "=0.8.7", default-features = false }
rapier2d = { version = "=0.18.0", features = ["debug-render"] }
macroquad = "=0.3.26"

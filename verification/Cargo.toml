[package]
name = "sidecar_host"
version = "0.1.0"
edition = "2021"
publish = false

[dependencies]
chrono = { version = "=0.4.45", default-features = false, features = ["clock"] }
log = "=0.4.34"
tauri = { version = "=2.12.5", default-features = false }

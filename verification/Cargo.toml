[package]
name = "sunshift"
version = "0.1.0"
edition = "2021"
publish = false

[dependencies]
image = { version = "0.25", default-features = false, features = ["png"] }
serde = { version = "1", features = ["derive"] }
tauri = { version = "2", default-features = false, features = ["tray-icon", "image-png"] }
tokio = { version = "1", features = ["rt"] }
zbus = { version = "5", default-features = false, features = ["blocking-api", "tokio"] }

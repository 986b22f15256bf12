[package]
name = "tauri-plugin-androidwifi"
version = "0.1.0"
edition = "2021"
publish = false

[dependencies]
serde = { version = "1", features = ["derive"] }
tokio = { version = "1", features = ["rt"] }
tauri = { version = "2", default-features = false }

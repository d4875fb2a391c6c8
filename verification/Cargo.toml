[package]
name = "shared_paste"
version = "0.1.0"
edition = "2021"
publish = false

[dependencies]
askama = "*"
axum = "*"
chrono = "*"
serde = { version = "*", features = ["derive"] }
socketioxide = { version = "*", features = ["state"] }
tokio = { version = "*", features = ["full"] }
uuid = { version = "*", features = ["v4"] }

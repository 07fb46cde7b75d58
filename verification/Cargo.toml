[package]
name = "file_storage"
version = "0.1.0"
edition = "2021"
publish = false

[dependencies]
axum = { version = "*", features = ["multipart"] }
image = "*"
mime_guess = "*"
serde = { version = "*", features = ["derive"] }
thumbnails = "*"
tokio = { version = "*", features = ["full"] }
tokio-util = { version = "*", features = ["io"] }
uuid = { version = "*", features = ["v4"] }

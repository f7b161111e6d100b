[package]
name = "admin_api"
version = "0.1.0"
edition = "2021"
publish = false

[dependencies]
axum = { version = "0.7", default-features = false, features = ["json"] }
serde = { version = "1", features = ["derive"] }

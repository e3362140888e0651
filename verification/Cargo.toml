[package]
name = "retro_chat"
version = "0.1.0"
edition = "2021"
publish = false

[dependencies]
tokio = { version = "1", features = ["full"] }
chrono = "0.4"
serde = { version = "1", features = ["derive"] }
serde_json = "1"
rocket = { version = "0.5.1", features = ["json"] }
cursive = { version = "0.21", default-features = false, features = ["crossterm-backend"] }

[package]
name = "app_server"
version = "0.1.0"
edition = "2021"
publish = false

[dependencies]
rusqlite = "0.31"
warp = "0.3"
tokio = { version = "1", features = ["macros", "rt-multi-thread"] }
serde = { version = "1", features = ["derive"] }
serde_json = "1"

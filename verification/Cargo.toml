[package]
name = "task_store"
version = "0.1.0"
edition = "2021"
publish = false

[dependencies]
actix = "*"
actix-web = "*"
actix-redis = "*"
redis-async = "*"
futures = "*"
listenfd = "*"
serde = { version = "*", features = ["derive"] }

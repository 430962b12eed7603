[package]
name = "player"
version = "0.1.0"
edition = "2021"
publish = false

[dependencies]
dotenvy = "*"
lofty = "*"
rodio = "*"
serde = { version = "*", features = ["derive"] }
serde_json = "*"
sqlx = { version = "*", default-features = false, features = ["sqlite", "runtime-tokio"] }
tokio = { version = "*", features = ["full"] }
uuid = { version = "*", features = ["v4"] }

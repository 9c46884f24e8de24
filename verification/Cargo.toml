[package]
name = "robo"
version = "0.1.0"
edition = "2021"
publish = false

[dependencies]
argon2 = "0.5"
axum = "0.8"
clap = { version = "4", features = ["derive"] }
dotenv = "0.15"
jsonwebtoken = "9"
parking_lot = "0.12"
redis = "*"
reqwest = { version = "0.12", default-features = false, features = ["json"] }
sea-query = "*"
serde = { version = "1", features = ["derive"] }
serde_json = "1"
sqlx = { version = "0.8", default-features = false, features = ["postgres", "runtime-tokio", "macros"] }
thiserror = "*"
tokio = { version = "1", features = ["full"] }
tower-http = { version = "0.6", features = ["cors", "fs"] }
tracing = "0.1"
tracing-subscriber = "0.3"
validator = { version = "*", features = ["derive"] }

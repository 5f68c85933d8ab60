[package]
name = "forum_core"
version = "0.1.0"
edition = "2021"
publish = false

[dependencies]
anyhow = "*"
async-trait = "*"
axum = "*"
axum-server = { version = "*", features = ["tls-rustls"] }
chrono = { version = "*", features = ["serde"] }
dotenv = "*"
serde = { version = "*", features = ["derive"] }
sqlx = { version = "*", default-features = false, features = ["runtime-tokio", "postgres", "chrono", "uuid"] }
tokio = { version = "*", features = ["full"] }
tower-http = { version = "*", features = ["trace", "cors"] }
tracing-subscriber = "*"
uuid = { version = "*", features = ["v4", "serde"] }
validator = { version = "*", features = ["derive"] }

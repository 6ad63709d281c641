[package]
name = "session_auth"
version = "0.1.0"
edition = "2021"
publish = false

[dependencies]
chrono = "0.4"
oauth2 = "4.4"
uuid = { version = "1", features = ["v4", "serde"] }
anyhow = "1"
axum = "0.7"
axum-extra = { version = "0.9", features = ["cookie"] }
cookie = "0.18"
dotenv = "0.15"
http = "1"
reqwest = { version = "0.11", default-features = false, features = ["json", "rustls-tls"] }
serde = { version = "1", features = ["derive"] }
sqlx = { version = "0.7", default-features = false, features = ["postgres", "runtime-tokio", "uuid", "migrate"] }
tokio = { version = "1", features = ["full"] }
tower-http = { version = "0.5", features = ["cors", "fs"] }

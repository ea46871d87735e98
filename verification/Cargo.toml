[package]
name = "vmgate"
version = "0.1.0"
edition = "2021"
publish = false

[dependencies]
serde_json = "=1.0.151"
jsonwebtoken = { version = "=11.1.0", features = ["rust_crypto"] }
argon2 = "=0.6.0"
serde = { version = "=1.0.229", features = ["derive"] }
axum = { version = "=0.8.9", features = ["ws"] }
tokio = { version = "=1.53.2", features = ["rt-multi-thread", "macros", "net", "time"] }
reqwest = { version = "=0.13.5", features = ["json"] }
sqlx = { version = "=0.9.0", default-features = false, features = ["runtime-tokio", "postgres", "uuid", "chrono", "derive"] }
uuid = { version = "=1.27.0", features = ["v4", "serde"] }
chrono = { version = "=0.4.45", features = ["serde"] }
anyhow = "=1.0.104"
futures-util = "=0.3.34"
tokio-tungstenite = { version = "=0.29.0", features = ["native-tls"] }
native-tls = "=0.2.18"
dotenvy = "=0.15.7"
tower-http = { version = "=0.6.11", features = ["cors"] }
tracing = "=0.1.44"
tracing-subscriber = { version = "=0.3.23", features = ["env-filter"] }

[package]
name = "nail_salon"
version = "0.1.0"
edition = "2021"
publish = false

[dependencies]
aes-gcm = "=0.10.3"
anyhow = "=1.0.104"
async-stripe = { version = "=0.41.0", default-features = false, features = ["runtime-tokio-hyper-rustls"] }
axum = "=0.8.9"
base64 = "=0.22.1"
chrono = { version = "=0.4.45", features = ["serde"] }
dotenvy = "=0.15.7"
hex = "=0.4.3"
jsonwebtoken = "=9.3.1"
rand = "=0.8.8"
reqwest = { version = "=0.12.28", default-features = false, features = ["json", "rustls-tls"] }
serde = { version = "=1.0.229", features = ["derive"] }
serde_json = "=1.0.154"
sha2 = "=0.10.9"
sqlx = { version = "=0.8.6", default-features = false, features = ["runtime-tokio", "postgres", "chrono", "uuid", "migrate", "macros"] }
strum_macros = "=0.26.4"
tokio = { version = "=1.54.1", features = ["full"] }
tower-http = { version = "=0.6.11", features = ["cors", "trace"] }
tracing = "=0.1.44"
tracing-subscriber = { version = "=0.3.23", features = ["env-filter"] }
uuid = { version = "=1.29.1", features = ["v4", "serde"] }

[package]
name = "api_lightning"
version = "0.1.0"
edition = "2021"
publish = false

[dependencies]
base64 = "0.13"
hex = "0.4"
lightning-invoice = "*"
jsonwebtoken = "9"
uuid = { version = "1", features = ["v4", "serde"] }
chrono = { version = "0.4", features = ["serde"] }
serde = { version = "1", features = ["derive"] }
serde_json = "1"
actix-web = { version = "4", default-features = false, features = ["macros"] }
actix-rt = "2"
tokio = { version = "1", features = ["rt-multi-thread", "macros", "time"] }
reqwest = { version = "0.12", default-features = false, features = ["json", "rustls-tls", "stream"] }
futures-util = "0.3"
anyhow = "1"
tracing = "0.1"
tracing-subscriber = "0.3"
tracing-appender = "0.2"
diesel = { version = "2", features = ["postgres", "chrono", "uuid", "numeric"] }
diesel_migrations = "2"
bigdecimal = { version = "0.4", features = ["serde"] }
config = "0.11"
lazy_static = "1"
serde_with = "3"
utoipa = { version = "4", features = ["uuid", "chrono"] }
listenfd = "1"
rand = "0.8"

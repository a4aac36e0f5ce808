[package]
name = "rust_server"
version = "0.1.0"
edition = "2021"
publish = false

[dependencies]
actix = "=0.13.5"
actix-cors = "=0.7.2"
actix-web = { version = "=4.18.1", default-features = false, features = ["macros", "ws"] }
actix-web-actors = "=4.3.1"
aes-gcm = "=0.10.3"
anyhow = "=1.0.104"
base64 = "=0.22.1"
bcrypt = "=0.15.1"
chrono = { version = "=0.4.45", features = ["serde"] }
dotenv = "=0.15.0"
futures = "=0.3.34"
jsonwebtoken = "=9.3.1"
log = "=0.4.34"
prometheus = { version = "=0.13.4", default-features = false }
rand = "=0.8.8"
reqwest = { version = "=0.12.28", default-features = false }
serde = { version = "=1.0.229", features = ["derive"] }
serde_json = "=1.0.154"
sqlx = { version = "=0.8.6", default-features = false, features = ["runtime-tokio", "postgres", "chrono", "json", "migrate"] }
ssh2 = "=0.9.6"
sysinfo = "=0.29.11"
thiserror = "=1.0.69"
tokio = { version = "=1.54.1", features = ["rt-multi-thread", "macros", "time", "sync", "net"] }
tracing = "=0.1.44"
tracing-subscriber = { version = "=0.3.23", features = ["env-filter"] }
uuid = { version = "=1.29.0", features = ["v4", "serde"] }

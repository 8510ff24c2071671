[package]
name = "meibe_bot"
version = "0.1.0"
edition = "2021"
publish = false

[dependencies]
url = "=2.5.8"
regex = "=1.13.1"
rand = "=0.8.8"
serde = { version = "=1.0.229", features = ["derive"] }
serde_json = "=1.0.154"
tokio = { version = "=1.54.1", features = ["macros", "rt-multi-thread", "process", "sync", "io-util"] }
poise = "=0.6.2"
reqwest = { version = "=0.11.27", default-features = false, features = ["rustls-tls", "cookies"] }
rspotify = { version = "0.13", default-features = false, features = ["client-reqwest", "reqwest-rustls-tls"] }
sqlx = { version = "0.8", default-features = false, features = ["runtime-tokio", "sqlite", "macros"] }
anyhow = "=1.0.104"
thiserror = "=1.0.69"
tracing = "=0.1.44"
tracing-subscriber = { version = "=0.3.23", default-features = false, features = ["fmt", "std"] }
dotenv = "0.15"
lazy_static = "=1.5.1"
once_cell = "=1.21.4"

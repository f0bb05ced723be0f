[package]
name = "sahl"
version = "0.1.0"
edition = "2021"
publish = false

[dependencies]
sha2 = "=0.10.9"
ed25519-dalek = "=2.2.0"
base64 = "=0.22.1"
hex = "=0.4.3"
subtle = "=2.6.1"
rand = "=0.9.5"
uuid = { version = "=1.29.0", features = ["v7"] }
serde = { version = "=1.0.229", features = ["derive"] }
serde_json = "=1.0.154"
thiserror = "=2.0.21"
axum = "=0.8.9"
tokio = { version = "=1.54.1", features = ["rt-multi-thread", "macros", "net", "signal"] }
sqlx = { version = "=0.8.6", default-features = false, features = ["runtime-tokio", "postgres", "uuid", "time", "migrate"] }
reqwest = { version = "=0.12.28", default-features = false, features = ["blocking", "json"] }
rusqlite = { version = "=0.32.1", features = ["bundled"] }
argon2 = "=0.5.3"
time = "=0.3.55"
tracing = "=0.1.44"
tracing-subscriber = { version = "=0.3.23", features = ["env-filter"] }

[package]
name = "open4x"
version = "0.1.0"
edition = "2021"
publish = false

[dependencies]
base64 = "=0.22.1"
sha2 = "=0.10.9"
hmac = "=0.12.1"
subtle = "=2.6.1"
rand = "=0.9.5"
chrono = { version = "=0.4.45", default-features = false, features = ["std", "clock"] }
ulid = { version = "=1.2.1", features = ["serde"] }
serde = { version = "=1.0.229", features = ["derive"] }
serde_json = "=1.0.154"
thiserror = "=1.0.69"
clap = { version = "=4.6.7", features = ["derive"] }
async-trait = "=0.1.92"
sqlx = { version = "=0.8.6", default-features = false, features = ["sqlite", "runtime-tokio", "derive"] }
lettre = { version = "=0.11.23", default-features = false, features = ["builder", "smtp-transport", "tokio1", "tokio1-rustls-tls"] }

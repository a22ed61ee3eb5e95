[package]
name = "auth_backend"
version = "0.1.0"
edition = "2021"
publish = false

[dependencies]
argon2 = "=0.5.3"
rand = "=0.8.8"
uuid = { version = "=1.29.0", features = ["v4"] }
chrono = { version = "=0.4.45", features = ["serde"] }
email_address = "=0.2.9"
fancy-regex = "=0.20.0"
aide = { version = "=0.15.1", features = ["axum", "axum-json", "axum-query", "axum-extra-query", "swagger"] }
axum = { version = "=0.8.9", features = ["macros"] }
axum-extra = { version = "=0.10.3", features = ["query"] }
schemars = { version = "=0.9.0", features = ["chrono04"] }
serde = { version = "=1.0.229", features = ["derive"] }
sqlx = { version = "=0.9.0", default-features = false, features = ["sqlite", "runtime-tokio", "chrono"] }
thiserror = "=2.0.21"
tokio = { version = "=1.54.1", features = ["rt-multi-thread", "net", "macros"] }
tracing = { version = "=0.1.44", features = ["log"] }
tracing-subscriber = "=0.3.23"
dotenvy = "=0.15.7"

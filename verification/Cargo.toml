[package]
name = "be"
version = "0.1.0"
edition = "2021"
publish = false

[dependencies]
anyhow = "1"
axum = "0.8"
bcrypt = "*"
chrono = { version = "0.4", features = ["serde"] }
deadpool-redis = "*"
dotenvy = "0.15"
sea-orm = { version = "1", default-features = false, features = ["macros", "runtime-tokio", "sqlx-postgres", "with-chrono"] }
secrecy = { version = "0.10", features = ["serde"] }
serde = { version = "1", features = ["derive"] }
thiserror = "2"
tokio = { version = "1", features = ["macros", "net", "rt-multi-thread", "signal", "time"] }
tower-http = { version = "0.6", features = ["catch-panic", "request-id"] }
tracing = "0.1"
tracing-subscriber = { version = "0.3", features = ["env-filter"] }

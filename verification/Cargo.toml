[package]
name = "ticket_management"
version = "0.1.0"
edition = "2021"
publish = false

[dependencies]
serde = { version = "=1.0.229", features = ["derive"] }
serde_json = "=1.0.154"
axum = "=0.8.9"
tokio = { version = "=1.54.1", features = ["macros", "rt-multi-thread", "net", "signal"] }
tower-http = { version = "=0.6.11", features = ["trace"] }
tracing = "=0.1.44"
tracing-subscriber = { version = "=0.3.23", features = ["env-filter"] }
sqlx = { version = "=0.8.6", default-features = false, features = ["runtime-tokio", "postgres", "time", "uuid"] }
moka = { version = "=0.12.16", features = ["future"] }
anyhow = "=1.0.104"
thiserror = "=2.0.21"
config = { version = "=0.15.27", default-features = false, features = ["yaml"] }
time = { version = "=0.3.55", features = ["formatting"] }
uuid = { version = "=1.29.0", features = ["serde"] }

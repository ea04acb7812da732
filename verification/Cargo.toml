[package]
name = "warehouse_management_system_backend"
version = "0.1.0"
edition = "2021"
publish = false

[dependencies]
sha2 = "=0.10.9"
hex = "=0.4.3"
anyhow = "=1.0.104"
async-trait = "=0.1.92"
axum = { version = "=0.8.9", features = ["multipart"] }
axum-extra = { version = "=0.10.3", features = ["cookie"] }
chrono = { version = "=0.4.45", features = ["serde"] }
deadpool-redis = { version = "=0.18.0", features = ["cluster"] }
dotenvy = "=0.15.7"
reqwest = { version = "=0.12.28", default-features = false, features = ["multipart", "rustls-tls"] }
serde = { version = "=1.0.229", features = ["derive"] }
serde_json = "=1.0.154"
sqlx = { version = "=0.8.6", default-features = false, features = ["runtime-tokio", "postgres", "chrono", "derive"] }
thiserror = "=1.0.69"
time = "=0.3.55"
tokio = { version = "=1.54.1", features = ["rt-multi-thread", "macros", "net", "signal"] }
tower-http = { version = "=0.6.11", features = ["cors", "compression-gzip", "trace"] }
tracing = "=0.1.44"
tracing-subscriber = { version = "=0.3.23", features = ["env-filter", "json"] }
uuid = { version = "=1.29.1", features = ["v4"] }
validator = { version = "=0.18.1", features = ["derive"] }

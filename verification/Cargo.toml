[package]
name = "axum_web"
version = "0.1.0"
edition = "2021"
publish = false

[dependencies]
axum = "=0.8.9"
axum-extra = { version = "=0.12.6", features = ["typed-header"] }
chrono = { version = "=0.4.45", features = ["serde"] }
hyper = "=1.12.0"
jsonwebtoken = { version = "=11.1.0", features = ["rust_crypto"] }
redis = { version = "=1.8.0", features = ["tokio-comp"] }
serde = { version = "=1.0.229", features = ["derive"] }
serde_json = "=1.0.154"
sqlx = { version = "=0.8.6", default-features = false, features = ["runtime-tokio", "postgres", "uuid", "chrono"] }
thiserror = "=2.0.21"
tokio = { version = "=1.54.1", features = ["rt-multi-thread", "macros", "net", "signal", "sync"] }
tower-http = { version = "=0.7.1", features = ["cors"] }
tracing = "=0.1.44"
uuid = { version = "=1.29.0", features = ["v4", "serde"] }

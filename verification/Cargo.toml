[package]
name = "axum_erp_api"
version = "0.1.0"
edition = "2021"
publish = false

[dependencies]
unicode-normalization = "=0.1.26"
jsonwebtoken = "=9.3.1"
axum = "=0.8.9"
tokio = { version = "=1.54.1", features = ["macros", "rt-multi-thread", "net"] }
sqlx = { version = "=0.8.6", default-features = false, features = ["runtime-tokio", "mysql", "chrono", "derive"] }
serde = { version = "=1.0.229", features = ["derive"] }
serde_json = { version = "=1.0.154", features = ["raw_value"] }
serde_with = { version = "=3.24.0", default-features = false, features = ["macros"] }
chrono = { version = "=0.4.45", default-features = false, features = ["serde", "std"] }
deadpool-redis = "=0.18.0"
redis = "=0.27.6"
reqwest = { version = "=0.12.28", default-features = false }
tower-http = { version = "=0.6.11", features = ["cors", "trace"] }
tracing = "=0.1.44"
tracing-subscriber = { version = "=0.3.23", features = ["env-filter"] }
dotenv = "=0.15.0"
dotenvy = "=0.15.7"

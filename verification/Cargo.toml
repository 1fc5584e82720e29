[package]
name = "lodestone"
version = "0.1.0"
edition = "2021"
publish = false

[dependencies]
argon2 = { version = "0.5", features = ["std"] }
sha2 = "0.10"
jsonwebtoken = { version = "10", default-features = false, features = ["rust_crypto"] }
serde_json = { version = "1", features = ["raw_value"] }
chrono = { version = "0.4", features = ["serde"] }
validator = { version = "*", features = ["derive"] }
uuid = { version = "1", features = ["v4", "serde"] }
serde = { version = "1", features = ["derive"] }
thiserror = "2"
anyhow = "1"
axum = "0.8"
tokio = { version = "1", features = ["macros", "rt-multi-thread", "net"] }
tower-http = { version = "0.6", features = ["cors", "trace"] }
tracing = "0.1"
tracing-subscriber = { version = "0.3", features = ["env-filter"] }
dotenvy = "0.15"
sea-orm = { version = "1", default-features = false, features = ["macros", "with-json", "with-chrono", "with-uuid", "sqlx-postgres", "runtime-tokio-rustls"] }
sea-orm-migration = { version = "1", default-features = false }
async-trait = "0.1"

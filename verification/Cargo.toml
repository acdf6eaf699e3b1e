[package]
name = "memo_core"
version = "0.1.0"
edition = "2021"
publish = false

[dependencies]
actix-cors = "0.7"
actix-files = "0.6"
actix-governor = "*"
actix-web = { version = "4", default-features = false, features = ["macros", "compress-gzip"] }
ammonia = "4"
anyhow = "1"
chrono = { version = "0.4", features = ["serde"] }
dotenv = "0.15"
num_cpus = "1"
prometheus = { version = "*", default-features = false }
sea-orm = { version = "1", default-features = false, features = ["macros", "sqlx-postgres", "runtime-tokio-rustls", "with-chrono", "with-uuid"] }
serde = { version = "1", features = ["derive"] }
serde_json = "1"
thiserror = "*"
tokio = { version = "1", features = ["macros", "rt-multi-thread"] }
tracing = "0.1"
tracing-subscriber = { version = "0.3", features = ["env-filter", "json"] }
uuid = { version = "1", features = ["v4", "serde"] }
validator = "0.20"

[package]
name = "guild_log"
version = "0.1.0"
edition = "2021"
publish = false

[dependencies]
anyhow = "=1.0.104"
chrono = "=0.4.45"
dotenv = "=0.15.0"
sea-query = { version = "=0.32.7", features = ["backend-postgres", "with-uuid", "with-chrono"] }
sea-query-binder = { version = "=0.7.0", features = ["sqlx-postgres", "with-uuid", "with-chrono"] }
sqlx = { version = "=0.8.6", features = ["runtime-tokio", "postgres", "uuid", "chrono", "macros", "migrate"] }
tokio = { version = "=1.54.1", features = ["full"] }
tracing = "=0.1.44"
tracing-subscriber = "=0.3.23"
twilight-cache-inmemory = "=0.15.4"
twilight-gateway = "=0.15.4"
twilight-http = "=0.15.4"
twilight-model = "=0.15.4"
uuid = { version = "=1.29.1", features = ["v4"] }
vesper = "=0.13.0"

[package]
name = "telemetry_ingest"
version = "0.1.0"
edition = "2021"
publish = false

[dependencies]
chrono = "0.4"
dotenvy = "0.15"
serde = { version = "1", features = ["derive"] }
serde_json = "1"
sqlx = { version = "0.8", default-features = false, features = ["runtime-tokio", "postgres", "chrono"] }
tokio = { version = "1", features = ["net", "io-util", "rt-multi-thread", "macros"] }

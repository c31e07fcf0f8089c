[package]
name = "tg_ingest"
version = "0.1.0"
edition = "2021"
publish = false

[dependencies]
chrono = "=0.4.45"
chrono-tz = "=0.10.4"
serde = { version = "=1.0.229", features = ["derive"] }
serde_json = "=1.0.151"
actix-web = { version = "=4.15.0", default-features = false, features = ["macros"] }
reqwest = { version = "=0.13.5", default-features = false, features = ["json", "form"] }
tokio = { version = "=1.53.2", features = ["fs", "io-util", "rt-multi-thread", "macros"] }
aws-config = { version = "=1.12.0", default-features = false }
aws-sdk-s3 = { version = "=1.152.0", default-features = false, features = ["rt-tokio"] }
aws-sdk-dynamodb = { version = "=1.130.0", default-features = false }

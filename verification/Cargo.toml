[package]
name = "supertable"
version = "0.1.0"
edition = "2021"
publish = false

[dependencies]
serde = { version = "1", features = ["derive"] }
serde_json = "1"
tokio = { version = "1", features = ["rt"] }
sqlx = { version = "0.8", default-features = false, features = ["runtime-tokio", "mysql", "postgres", "sqlite"] }
redis = "0.27"
mongodb = { version = "3", features = ["sync"] }

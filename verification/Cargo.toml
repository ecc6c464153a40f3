[package]
name = "itol_engine"
version = "0.1.0"
edition = "2021"
publish = false

[dependencies]
serde = { version = "1", features = ["derive"] }
serde_json = "1"
reqwest = { version = "0.12", default-features = false }
sqlx = { version = "0.8", default-features = false, features = ["runtime-tokio", "sqlite", "postgres"] }
tokio = { version = "1", features = ["rt-multi-thread", "macros", "fs"] }
oracle = "0.6"
zip = { version = "2", default-features = false, features = ["deflate"] }
dirs = "6"
chrono = { version = "0.4", features = ["serde"] }

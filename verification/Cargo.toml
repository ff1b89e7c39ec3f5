[package]
name = "orm"
version = "0.1.0"
edition = "2021"
publish = false

[dependencies]
async-trait = "0.1"
serde = { version = "1", features = ["derive"] }
serde_json = "1"
sqlx = { version = "0.7", default-features = false, features = ["runtime-tokio", "sqlite", "mysql", "any"] }
thiserror = "1"
tokio = { version = "1", features = ["sync", "rt", "macros", "time"] }

[package]
name = "sparkling"
version = "0.1.0"
edition = "2021"
rust-version = "1.95"
publish = false

[dependencies]
uuid = { version = "=1.29.0", features = ["v7"] }
serde_json = "=1.0.154"
chrono = "=0.4.45"
sqlx = { version = "0.8", default-features = false, features = ["runtime-tokio", "sqlite", "chrono", "macros"] }
tokio = { version = "1", features = ["macros", "rt-multi-thread"] }
teloxide = { version = "=0.17.0", features = ["macros"] }
takecell = "=0.1.1"
dptree = "=0.5.1"
async-trait = "0.1"
thiserror = "2"
anyhow = "1"
dotenvy = "0.15"
tracing = "0.1"
tracing-subscriber = { version = "0.3", features = ["env-filter"] }

[package]
name = "dialogue_engine"
version = "0.1.0"
edition = "2021"
publish = false

[dependencies]
anyhow = "=1.0.104"
chrono = { version = "=0.4.45", features = ["serde"] }
dotenv = "=0.15.0"
dptree = "=0.3.0"
genai = "=0.1.23"
log = "=0.4.34"
pretty_env_logger = "=0.5.0"
serde = { version = "=1.0.229", features = ["derive"] }
sqlx = { version = "=0.8.6", default-features = false, features = ["postgres", "runtime-tokio", "chrono", "derive"] }
takecell = "<0.1.2"
teloxide = { version = "=0.13.0", features = ["macros", "redis-storage"] }
tokio = { version = "=1.54.1", features = ["macros", "rt-multi-thread"] }
uuid = { version = "=1.29.0", features = ["v7"] }

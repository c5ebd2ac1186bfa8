[package]
name = "insert_bench"
version = "0.1.0"
edition = "2021"
publish = false

[dependencies]
anyhow = "=1.0.104"
chrono = "=0.4.45"
clap = { version = "=4.6.7", features = ["derive"] }
log = "=0.4.34"
pretty_env_logger = "=0.5.0"
rusqlite = "=0.41.0"
thousands = "=0.2.0"
uuid = { version = "=1.29.0", features = ["v4"] }

[dev-dependencies]
tempfile = "3"

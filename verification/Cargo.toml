[package]
name = "sql_gateway"
version = "0.1.0"
edition = "2021"
publish = false

[dependencies]
rusqlite = { version = "=0.40.2", features = ["bundled", "load_extension"] }
serde = { version = "*", features = ["derive"] }
serde_json = "*"
warp = { version = "=0.4.3", features = ["server"] }
tokio = { version = "*", features = ["macros", "rt-multi-thread"] }
clap = { version = "*", features = ["derive"] }
chrono = "=0.4.45"
log = "*"
env_logger = "*"

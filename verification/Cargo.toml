[package]
name = "subjective"
version = "0.1.0"
edition = "2021"
publish = false

[dependencies]
anyhow = "*"
chrono = "*"
clap = { version = "*", features = ["derive"] }
colored = "*"
directories = "*"
env_logger = "*"
humantime = "*"
indoc = "*"
inquire = "*"
log = "*"
reqwest = { version = "*", default-features = false }
serde = { version = "*", features = ["derive"] }
serde_json = "*"
tokio = { version = "*", features = ["fs", "macros", "rt-multi-thread"] }
toml = "*"
uuid = { version = "*", features = ["v4"] }

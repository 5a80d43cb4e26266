[package]
name = "wings"
version = "0.1.0"
edition = "2021"
publish = false

[dependencies]
ulid = "*"
serde = { version = "*", features = ["derive"] }
serde_json = "*"
toml = "*"
log = "*"
pretty_env_logger = "*"
sentry = { version = "*", default-features = false }

[package]
name = "git_sync_service"
version = "0.1.0"
edition = "2021"
publish = false

[dependencies]
git2 = { version = "*", default-features = false }
hyper = "0.12"
log = "*"
pretty_env_logger = "*"
failure = "*"
serde = { version = "*", features = ["derive"] }
serde_json = "*"

[dev-dependencies]
tempfile = "*"

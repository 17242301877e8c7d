[package]
name = "concourse-github-issue"
version = "1.0.0"
edition = "2021"
publish = false

[dependencies]
concourse-resource = "=0.3.0"
env_logger = "=0.11.11"
log = "=0.4.34"
octocrab = "=0.47.1"
serde = { version = "=1.0.229", features = ["derive"] }
serde_json = "=1.0.154"
tokio = { version = "=1.54.1", features = ["macros", "rt-multi-thread"] }

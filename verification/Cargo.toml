[package]
name = "git_mirror"
version = "0.1.0"
edition = "2021"
publish = false

[dependencies]
anyhow = "=1.0.104"
argh = "=0.1.19"
cmd_lib = "=2.0.1"
env_logger = "=0.11.11"
log = "=0.4.34"
octocrab = "=0.47.1"
serde = { version = "=1.0.229", features = ["derive"] }
tokio = { version = "=1.54.1", features = ["macros", "rt"] }

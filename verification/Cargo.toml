[package]
name = "buildlog_consultant"
version = "0.1.0"
edition = "2021"
publish = false

[dependencies]
regex = "1"
fancy-regex = "*"
textwrap = "*"
shlex = "*"
debian-control = "*"
debversion = { version = "*", features = ["serde"] }
serde = { version = "1", features = ["derive"] }
serde_json = "1"
serde_yaml = "*"
clap = { version = "4", features = ["derive"] }
env_logger = "*"
log = "0.4"
tokio = { version = "1", features = ["rt-multi-thread"] }
anthropic = "*"

[package]
name = "photosort"
version = "0.1.0"
edition = "2021"
publish = false

[dependencies]
chrono = { version = "*", default-features = false, features = ["std", "clock"] }
regex = "*"
clap = { version = "*", features = ["derive"] }
notify = "*"
daemonize = "*"
env_logger = "*"
log = "*"
serde = { version = "*", features = ["derive"] }
toml = "*"
symlink = "*"

[package]
name = "eidetic"
version = "0.1.0"
edition = "2021"
publish = false

[dependencies]
rusqlite = { version = "*", features = ["bundled"] }
image = "*"
fuser = "*"
libc = "*"
clap = { version = "*", features = ["derive"] }
daemonize = "*"
dirs = "*"
env_logger = "*"
ignore = "*"
serde = { version = "*", features = ["derive"] }
serde_json = "*"
reqwest = { version = "*", default-features = false, features = ["blocking"] }
anyhow = "*"

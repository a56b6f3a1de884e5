[package]
name = "backup_photos"
version = "0.1.0"
edition = "2021"
publish = false

[dependencies]
anyhow = "1"
chrono = "0.4"
clap = { version = "4", features = ["derive"] }
dirs = "5"
dotenv = "0.15"
env_logger = "0.11"
indicatif = "0.17"
log = "0.4"
sha2 = "0.10"
thiserror = "1"
walkdir = "2"

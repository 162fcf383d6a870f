[package]
name = "crawler"
version = "0.1.0"
edition = "2021"
publish = false

[dependencies]
scraper = "*"
serde_json = "*"
serde = { version = "*", features = ["derive"] }
reqwest = { version = "*", default-features = false, features = ["blocking", "gzip", "json"] }
url = "*"
config = { version = "*", default-features = false, features = ["json"] }
ctrlc = "*"
env_logger = "*"
log = "*"
anyhow = "*"

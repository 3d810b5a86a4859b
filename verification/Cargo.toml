[package]
name = "manget"
version = "0.1.0"
edition = "2021"
publish = false

[dependencies]
clap = { version = "4", features = ["derive"] }
env_logger = "0.11"
futures = "0.3"
html-escape = "0.2"
log = "0.4"
mime = "0.3"
regex = "1"
reqwest = "0.12"
sanitize-filename = "*"
scraper = "*"
serde = { version = "1", features = ["derive"] }
serde_json = "1"
tempfile = "3"
thiserror = "1"
tokio = { version = "1", features = ["rt-multi-thread", "macros", "time"] }
zip = { version = "0.6", default-features = false, features = ["deflate"] }

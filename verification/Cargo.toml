[package]
name = "rawkuma_scraper"
version = "0.1.0"
edition = "2021"
publish = false

[dependencies]
scraper = "=0.29.0"
url = { version = "=2.5.8", features = ["serde"] }
chrono = { version = "=0.4.45", default-features = false, features = ["std", "serde"] }
htmlize = { version = "=1.1.0", features = ["unescape"] }
serde = { version = "=1.0.229", features = ["derive"] }
serde_json = "=1.0.154"
thiserror = "=2.0.21"
reqwest = { version = "=0.13.5", default-features = false }
tokio = { version = "=1.54.1", features = ["rt-multi-thread", "macros"] }

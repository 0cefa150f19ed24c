[package]
name = "cuc"
version = "0.1.0"
edition = "2021"
publish = false

[dependencies]
anyrepair = "*"
chrono = { version = "=0.4.45", features = ["serde"] }
clap = { version = "=4.6.7", features = ["derive"] }
md5 = "=0.8.1"
regex = "=1.13.1"
reqwest = { version = "=0.12.28", default-features = false, features = ["rustls-tls", "json"] }
scraper = "=0.29.0"
serde = { version = "=1.0.229", features = ["derive"] }
serde_json = { version = "=1.0.154", features = ["preserve_order"] }
tokio = { version = "=1.54.1", features = ["rt-multi-thread", "macros", "time"] }
url = "=2.5.8"

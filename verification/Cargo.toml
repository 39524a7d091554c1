[package]
name = "rapportage_downloader"
version = "0.1.0"
edition = "2021"
publish = false

[dependencies]
base64 = "=0.23.1"
calamine = "=0.36.1"
chrono = "=0.4.45"
clap = { version = "=4.6.7", features = ["derive"] }
reqwest = { version = "=0.13.5", default-features = false, features = ["cookies", "form", "multipart"] }
scraper = "=0.27.0"
serde_json = "=1.0.151"
tokio = { version = "=1.53.2", features = ["macros", "rt-multi-thread", "fs", "io-util", "sync", "time"] }
url = "=2.5.8"

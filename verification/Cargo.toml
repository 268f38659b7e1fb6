[package]
name = "book_providers"
version = "0.1.0"
edition = "2021"
publish = false

[dependencies]
scraper = "*"
html-escape = "0.2"
urlencoding = "2"
convert_case = "*"
itertools = "*"
chrono = "0.4"
anyhow = "1"
async-trait = "0.1"
serde = { version = "1", features = ["derive"] }
serde_json = "1"
tokio = { version = "1", features = ["time", "rt", "macros"] }
reqwest = { version = "0.12", default-features = false, features = ["rustls-tls", "json", "gzip"] }

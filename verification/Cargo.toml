[package]
name = "newsapi"
version = "0.1.0"
edition = "2021"
publish = false

[dependencies]
url = "=2.5.8"
ureq = { version = "=2.12.1", features = ["json"] }
serde = { version = "=1.0.229", features = ["derive"] }
serde_json = { version = "=1.0.154", features = ["raw_value"] }
thiserror = "=1.0.69"
tracing = "=0.1.44"
reqwest = { version = "=0.11.27", default-features = false, features = ["json", "rustls-tls"] }
tracing-subscriber = "=0.3.23"

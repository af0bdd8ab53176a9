[package]
name = "lyric_sync"
version = "0.1.0"
edition = "2021"
publish = false

[dependencies]
crossterm = "=0.29.0"
dotenv = "=0.15.0"
reqwest = { version = "=0.11.27", features = ["blocking", "json"] }
rspotify = { version = "0.13", default-features = false, features = ["client-ureq", "ureq-rustls-tls"] }
serde = { version = "=1.0.229", features = ["derive"] }
serde_json = "=1.0.154"

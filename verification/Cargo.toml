[package]
name = "malvolio"
version = "0.3.1"
edition = "2021"
publish = false

[dependencies]
fuzzcheck = "=0.12.1"
serde = { version = "=1.0.229", features = ["derive"] }

[dev-dependencies]
scraper = "=0.29.0"

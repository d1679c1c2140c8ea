[package]
name = "scrape_core"
version = "0.1.0"
edition = "2021"
publish = false

[dependencies]
futures = "0.3"
headless_chrome = "1"
reqwest = { version = "0.12", features = ["blocking"] }
serde = { version = "1", features = ["derive"] }
serde_json = "1"
tokio = { version = "1", features = ["rt-multi-thread", "time"] }

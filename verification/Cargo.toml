[package]
name = "syphon"
version = "0.1.0"
edition = "2021"
publish = false

[dependencies]
serde = { version = "*", features = ["derive"] }
serde_json = "*"
scraper = "*"
url = "*"
scc = "*"
tokio = { version = "*", features = ["rt", "rt-multi-thread", "sync", "macros", "time"] }
tokio-stream = "*"
futures = "*"
reqwest = { version = "*", default-features = false }
log = "*"

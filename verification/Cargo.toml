[package]
name = "paper_harvest"
version = "0.1.0"
edition = "2021"
publish = false

[dependencies]
async-compression = { version = "=0.4.50", features = ["futures-io", "gzip"] }
futures = "=0.3.34"
rand = "=0.8.8"
reqwest = { version = "=0.12.28", default-features = false }
serde_json = "=1.0.151"
tar = "0.4"
tokio = { version = "=1.53.2", features = ["full"] }

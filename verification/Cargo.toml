[package]
name = "tanklarkit"
version = "0.1.0"
edition = "2021"
publish = false

[dependencies]
futures = "0.3"
reqwest = { version = "0.11", default-features = false }
serde = "1"
serde_json = "1"
tokio = { version = "1", features = ["macros", "rt-multi-thread"] }
twilight-cache-inmemory = "0.5"
twilight-embed-builder = "0.5"
twilight-gateway = "0.5"
twilight-http = "0.5"
twilight-model = "0.5"

[package]
name = "trinity_bot"
version = "0.1.0"
edition = "2021"
publish = false

[dependencies]
anyhow = "1"
futures = "0.3"
tokio = { version = "1", features = ["rt-multi-thread", "macros"] }
twilight-cache-inmemory = "0.6"
twilight-embed-builder = "0.6"
twilight-gateway = "0.6"
twilight-http = "0.6"
twilight-model = "0.6"

[package]
name = "outbound_redis"
version = "0.1.0"
edition = "2021"
publish = false

[dependencies]
redis = "=0.23.5"
reqwest = { version = "0.11", features = ["blocking", "json"] }
serde = { version = "1", features = ["derive"] }
serde_json = "1"
http = "0.2"
url = "2"
clap = { version = "3.2", features = ["derive"] }
semver = "1"
anyhow = "1"

[dev-dependencies]
redis-test = "=0.2.3"

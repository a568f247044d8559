[package]
name = "accord"
version = "0.1.0"
edition = "2021"
publish = false

[dependencies]
async-channel = "=1.9.0"
async-std = { version = "=1.13.2", features = ["attributes"] }
futures = "=0.3.34"
isahc = { version = "=0.9.14", features = ["json"] }
mime = "=0.3.17"
regex = "=1.13.1"
serde = { version = "=1.0.229", features = ["derive"] }
serde_json = "=1.0.154"
thiserror = "=1.0.69"
tide = "=0.16.0"
tide-tracing = "=0.1.1"
tracing = "=0.1.44"
tracing-log = "=0.1.4"
tracing-subscriber = { version = "=0.2.25", features = ["env-filter"] }
twilight-cache-inmemory = "=0.2.9"
twilight-gateway = "=0.2.7"
twilight-http = "=0.2.10"
twilight-model = "=0.2.9"

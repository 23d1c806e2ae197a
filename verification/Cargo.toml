[package]
name = "semantic_search"
version = "0.1.0"
edition = "2021"
publish = false

[dependencies]
lambda_http = "=0.11.4"
qdrant-client = { version = "=1.9.0", default-features = false, features = ["serde"] }
reqwest = { version = "=0.12.28", default-features = false, features = ["json", "rustls-tls"] }
serde = { version = "=1.0.229", features = ["derive"] }
serde_json = "=1.0.154"
tokio = { version = "=1.54.1", features = ["macros", "rt-multi-thread"] }

[package]
name = "ttl_keeper"
version = "0.1.0"
edition = "2021"
publish = false

[dependencies]
stellar-xdr = { version = "=20.1.0", features = ["curr", "std", "base64", "serde"] }
stellar-strkey = "=0.0.8"
sha2 = "=0.10.8"
soroban-sdk = { version = "=20.5.0" }
serde = { version = "=1.0.192", features = ["derive"] }
serde_json = "=1.0.108"
axum = "=0.7.9"
http = "=1.5.0"
tower-http = { version = "=0.5.2", features = ["cors"] }
tokio = { version = "=1.54.1", features = ["full"] }
reqwest = { version = "=0.11.27", default-features = false, features = ["json", "blocking", "rustls-tls"] }
graphql_client = "=0.13.0"
tracing = "=0.1.44"
anyhow = "=1.0.104"
sqlx = { version = "=0.7.4", default-features = false, features = ["postgres", "runtime-tokio", "macros"] }

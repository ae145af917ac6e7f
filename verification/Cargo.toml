[package]
name = "graft"
version = "0.1.0"
edition = "2021"
publish = false

[dependencies]
tokio-postgres = "=0.7.18"
serde_json = "=1.0.154"
futures = "=0.3.34"
futures-locks = "=0.7.1"
actix = "=0.13.5"
actix-web = { version = "=4.18.1", features = ["openssl"] }
openssl = "=0.10.81"
activitypub = "=0.2.0"
tokio = { version = "=1.54.1", features = ["rt", "macros"] }

[package]
name = "gateway_client"
version = "0.1.0"
edition = "2021"
publish = false

[dependencies]
serde_json = "=1.0.151"
serde = { version = "=1.0.229", features = ["derive"] }
reqwest = { version = "=0.13.5", default-features = false, features = ["blocking"] }
websocket = { version = "=0.27.1", default-features = false, features = ["sync", "sync-ssl"] }
tokio = { version = "=1.53.2", default-features = false, features = ["rt"] }

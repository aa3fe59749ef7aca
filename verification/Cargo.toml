[package]
name = "entanglement_webapp"
version = "0.1.0"
edition = "2021"
publish = false

[dependencies]
chrono = "0.4"
serde = { version = "1", features = ["derive"] }
gloo-storage = "0.3"
anyhow = "1"
tracing = "0.1"

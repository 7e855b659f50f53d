[package]
name = "rubl"
version = "0.1.0"
edition = "2021"
publish = false

[dependencies]
serde = { version = "=1.0.229", features = ["derive"] }
serde_json = "=1.0.151"
toon = "=0.1.2"
reqwest = { version = "=0.13.5", default-features = false, features = ["query"] }
rmcp = { version = "=3.5.1", features = ["server", "transport-io"] }
tokio = { version = "=1.53.2", features = ["rt", "macros"] }
schemars = "=1.2.2"

[package]
name = "crudy"
version = "0.1.0"
edition = "2021"
publish = false

[dependencies]
tokio-postgres = { version = "0.7", features = ["with-uuid-1"] }
tokio-pg-mapper = "0.2"
uuid = "1"

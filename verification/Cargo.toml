[package]
name = "qdrant_provision"
version = "0.1.0"
edition = "2021"
publish = false

[dependencies]
anyhow = "1"
clap = { version = "4", features = ["derive"] }
qdrant-client = "*"
tokio = { version = "1", features = ["macros", "rt-multi-thread"] }

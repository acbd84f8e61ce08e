[package]
name = "c67_mcp"
version = "0.1.0"
edition = "2021"
publish = false

[dependencies]
anyhow = "*"
clap = { version = "*", features = ["derive"] }
rmcp = { version = "*", features = ["server", "transport-io"] }
rustls = { version = "*", default-features = false, features = ["ring", "std", "tls12", "logging"] }
serde = { version = "*", features = ["derive"] }
tokio = { version = "*", features = ["rt-multi-thread", "macros"] }
tracing = "*"
tracing-subscriber = { version = "*", features = ["env-filter"] }
ureq = "2"

[package]
name = "contextbtc"
version = "0.1.0"
edition = "2021"
publish = false

[dependencies]
anyhow = "1"
backon = "*"
reqwest = { version = "*", default-features = false, features = ["json"] }
rmcp = { version = "*", features = ["server", "macros"] }
serde = { version = "1", features = ["derive"] }
serde_json = "1"
tracing = "*"

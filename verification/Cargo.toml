[package]
name = "mcp-error"
version = "0.1.0"
edition = "2021"

[dependencies]
serde = { version = "1", features = ["derive"] }
serde_derive = "1"

[dev-dependencies]
serde_json = "1"

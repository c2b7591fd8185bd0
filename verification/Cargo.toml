[package]
name = "kernel_builder"
version = "0.1.0"
edition = "2021"
publish = false

[dependencies]
anyhow = "1"
async-trait = "0.1"
camino = { version = "1", features = ["serde1"] }
clap = { version = "4", features = ["derive", "env"] }
rmcp = { version = "*", features = ["server", "macros", "transport-io"] }
rusqlite = { version = "*", features = ["bundled"] }
schemars = "1"
serde = { version = "1", features = ["derive"] }
serde_json = "1"
sha2 = "0.10"
time = "0.3"
tokio = { version = "1", features = ["full"] }
toml = "*"
tracing = "0.1"
uuid = { version = "1", features = ["v7", "serde"] }

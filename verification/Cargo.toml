[package]
name = "mcp_webpublication_server"
version = "0.1.0"
edition = "2021"
publish = false

[dependencies]
serde_json = "=1.0.151"
base64 = "=0.23.1"
serde = { version = "=1.0.229", features = ["derive"] }
schemars = "=1.2.2"
anyhow = "=1.0.104"
dotenv = "=0.15.0"
tracing = "=0.1.44"
tracing-subscriber = "=0.3.23"
reqwest = { version = "=0.13.5", default-features = false, features = ["json", "cookies", "query"] }
rmcp = { version = "=3.5.1", features = ["server", "transport-io"] }
tokio = { version = "=1.53.2", features = ["macros", "rt-multi-thread"] }

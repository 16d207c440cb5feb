[package]
name = "llm_gateway"
version = "0.1.0"
edition = "2021"
publish = false

[dependencies]
serde_json = "*"
serde = { version = "*", features = ["derive"] }
axum = "*"
reqwest = { version = "*", default-features = false, features = ["json", "stream"] }
tokio = { version = "*", features = ["full"] }
tokio-util = { version = "*", features = ["io"] }
futures-util = "*"
tower-http = { version = "*", features = ["fs"] }

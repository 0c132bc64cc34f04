[package]
name = "copilot-runtime"
version = "0.1.0"
edition = "2021"
publish = false

[dependencies]
agent-client-protocol = { version = "=0.9.5", features = ["unstable"] }
anyhow = "=1.0.104"
async-trait = "=0.1.92"
chrono = "=0.4.45"
dirs = "=7.0.0"
futures = "=0.3.34"
reqwest = { version = "=0.12.28", default-features = false, features = ["json", "stream"] }
serde_json = "=1.0.154"
tokio = { version = "=1.54.1", features = ["io-util", "macros", "process", "rt", "sync", "time"] }
tokio-stream = "=0.1.19"
tokio-util = { version = "=0.7.20", features = ["compat"] }
uuid = { version = "=1.29.0", features = ["v4"] }

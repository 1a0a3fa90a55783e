[package]
name = "dim"
version = "0.1.0"
edition = "2021"
publish = false

[dependencies]
anyhow = "=1.0.104"
async-openai = { version = "=0.42.1", features = ["chat-completion"] }
base64 = "=0.22.1"
futures = "=0.3.34"
image = { version = "=0.25.10", default-features = false, features = ["png"] }
rand = "=0.9.5"
serde_json = "=1.0.151"
tokio = { version = "=1.53.2", features = ["rt-multi-thread", "macros", "sync"] }

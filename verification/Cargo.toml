[package]
name = "tool_router"
version = "0.1.0"
edition = "2021"
publish = false

[dependencies]
async-trait = "*"
clap = { version = "*", features = ["derive"] }
ollama-rs = "*"
serde_json = "*"
tokio = { version = "*", features = ["macros", "rt-multi-thread", "io-util", "net"] }

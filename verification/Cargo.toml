[package]
name = "gentor"
version = "0.1.0"
edition = "2021"
publish = false

[dependencies]
anyhow = "=1.0.104"
async-openai = { version = "=0.42.1", features = ["chat-completion"] }
crossterm = "=0.25.0"
serde = { version = "=1.0.229", features = ["derive"] }
serde_json = "=1.0.151"
tokio = { version = "=1.53.2", features = ["macros", "rt-multi-thread"] }
tui = { version = "=0.19.0", features = ["crossterm"] }

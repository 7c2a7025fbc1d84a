[package]
name = "translate"
version = "0.1.0"
edition = "2021"
publish = false

[dependencies]
anyhow = "=1.0.104"
clap = { version = "=4.6.7", features = ["derive"] }
inquire = { version = "=0.9.4", features = ["editor"] }
openai = "=1.1.1"
tokio = { version = "=1.53.2", features = ["macros", "rt-multi-thread"] }

[package]
name = "gptchat"
version = "0.1.0"
edition = "2021"
publish = false

[dependencies]
clap = "4"
cursive = { version = "*", default-features = false, features = ["crossterm-backend"] }
openai = "*"
tokio = { version = "1", features = ["macros", "rt-multi-thread", "sync", "time"] }

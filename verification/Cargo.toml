[package]
name = "multiplayer_bot"
version = "0.1.0"
edition = "2021"
publish = false

[dependencies]
minreq = { version = "*", features = ["https"] }
serenity = "*"
tokio = { version = "*", features = ["macros", "rt-multi-thread"] }

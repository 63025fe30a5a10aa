[package]
name = "rusty_bot"
version = "0.1.0"
edition = "2021"
publish = false

[dependencies]
serenity = "0.11"
reqwest = { version = "0.11", default-features = false, features = ["rustls-tls"] }
tokio = { version = "1", features = ["macros", "rt-multi-thread"] }
dotenv = "0.15"

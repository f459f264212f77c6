[package]
name = "lumi"
version = "0.1.0"
edition = "2021"
publish = false

[dependencies]
eyre = "*"
openai-api-rs = "*"
serde = { version = "*", features = ["derive"] }
serenity = "*"
sqlx = { version = "*", features = ["postgres", "runtime-tokio"] }
tokio = { version = "*", features = ["macros", "rt-multi-thread", "sync", "fs"] }
toml = "*"

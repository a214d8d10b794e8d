[package]
name = "rpoke"
version = "0.1.0"
edition = "2021"
publish = false

[dependencies]
regex = "1"
tokio = { version = "1", features = ["net", "time", "io-util", "rt-multi-thread", "macros"] }
futures = "0.3"
clap = { version = "4", features = ["cargo"] }
serde = { version = "1", features = ["derive"] }
serde_json = "1"
csv = "1"

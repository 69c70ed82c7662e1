[package]
name = "loadrun"
version = "0.1.0"
edition = "2021"
publish = false

[dependencies]
async-stream = "*"
clap = { version = "*", features = ["derive"] }
futures = "*"
reqwest = { version = "*", default-features = false }
serde = { version = "*", features = ["derive"] }
tokio = { version = "*", features = ["macros", "rt-multi-thread", "time"] }

[package]
name = "todo_client"
version = "0.1.0"
edition = "2021"
publish = false

[dependencies]
serde_json = "*"
colored_json = "*"
clap = { version = "*", features = ["derive"] }
reqwest = { version = "*", default-features = false }
tokio = { version = "*", features = ["macros", "rt-multi-thread"] }

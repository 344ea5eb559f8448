[package]
name = "furiosa_client"
version = "0.2.1"
edition = "2021"
publish = false

[dependencies]
serde = { version = "*", features = ["derive"] }
serde_json = "*"
reqwest = { version = "*", default-features = false, features = ["multipart"] }
tokio = { version = "*", features = ["rt", "rt-multi-thread", "time"] }
uuid = { version = "*", features = ["v4"] }
dotenv = "*"
dirs = "*"
bytes = "*"

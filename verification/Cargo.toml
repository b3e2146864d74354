[package]
name = "titan_cli"
version = "1.0.0"
edition = "2021"
publish = false

[dependencies]
anyhow = "1"
clap = { version = "4", features = ["derive"] }
colored = "2"
dialoguer = "0.11"
dotenv = "0.15"
indicatif = "0.17"
reqwest = { version = "0.12", default-features = false, features = ["json"] }
serde = "1"
tokio = { version = "1", features = ["macros", "rt-multi-thread", "time"] }

[package]
name = "steam_auth"
version = "0.1.0"
edition = "2021"
publish = false

[dependencies]
clap = { version = "=4.6.7", features = ["derive"] }
reqwest = { version = "=0.13.5", default-features = false, features = ["query"] }
steamworks = "=0.13.1"
tokio = { version = "=1.53.2", features = ["macros", "rt-multi-thread", "time"] }

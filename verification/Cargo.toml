[package]
name = "yt_play"
version = "0.1.0"
edition = "2021"
publish = false

[dependencies]
url = "*"
directories = "*"
serde = { version = "*", features = ["derive"] }
serde_json = "*"
clap = { version = "*", features = ["derive"] }

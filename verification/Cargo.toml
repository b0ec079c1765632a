[package]
name = "slackit"
version = "0.1.0"
edition = "2021"
publish = false

[dependencies]
clap = "=4.6.7"
slack_api = { version = "=0.23.1", default-features = false, features = ["sync", "reqwest_blocking"] }

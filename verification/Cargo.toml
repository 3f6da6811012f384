[package]
name = "minicap_bridge"
version = "0.1.0"
edition = "2021"
publish = false

[dependencies]
bytes = "=1.12.1"
clap = { version = "=4.6.7", features = ["derive"] }
hyper = { version = "=0.14.32", features = ["full"] }
mime_guess = "=2.0.5"
rust-embed = "=8.13.0"
serde_json = "=1.0.154"
tokio = { version = "=1.54.1", features = ["full"] }

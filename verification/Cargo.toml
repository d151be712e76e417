[package]
name = "simperby_cli"
version = "0.1.0"
edition = "2021"
publish = false

[dependencies]
hex = "0.4.3"
clap = { version = "4", features = ["derive"] }
eyre = "0.6"
color-eyre = "0.6"
env_logger = "0.10"
tokio = { version = "1", features = ["rt-multi-thread", "macros", "fs"] }

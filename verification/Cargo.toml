[package]
name = "tempsystem"
version = "0.1.0"
edition = "2021"
publish = false

[dependencies]
bollard = "*"
clap = { version = "4", features = ["derive"] }
colorize = "*"
futures-util = "0.3"
indicatif = "*"
termion = "*"
thiserror = "*"
tokio = { version = "1", features = ["full"] }
tokio-util = "0.7"

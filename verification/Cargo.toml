[package]
name = "quickserve"
version = "0.1.0"
edition = "2021"
publish = false

[dependencies]
ansi_term = "0.12"
chrono = "0.4"
clap = { version = "4", features = ["derive"] }
cli-clipboard = "0.4"
network-interface = "*"
rcgen = "0.11"
reqwest = { version = "0.11", features = ["blocking"] }
rouille = { version = "3", features = ["ssl"] }
serde = { version = "1", features = ["derive"] }
serde_yaml = "0.9"

[package]
name = "imessage-exporter"
version = "0.1.0"
edition = "2021"
publish = false

[dependencies]
clap = { version = "4.5.46", features = ["cargo"] }
crabapple = "*"
indicatif = "0.18.0"
rusqlite = { version = "0.37.0", features = ["bundled"] }
serde_json = "1.0"

[package]
name = "deputy"
version = "0.1.0"
edition = "2021"
publish = false

[dependencies]
anyhow = "*"
clap = { version = "*", features = ["derive"] }
crossterm = "*"
dirs = "*"
ignore = "*"
indicatif = "*"
reqwest = { version = "*", default-features = false, features = ["json", "rustls-tls"] }
rustyline = "*"
serde = { version = "*", features = ["derive"] }
serde_json = "*"
similar = "*"
thiserror = "*"
tokio = { version = "*", features = ["macros", "rt-multi-thread", "time"] }

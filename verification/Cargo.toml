[package]
name = "lazy_maven"
version = "0.1.0"
edition = "2021"
publish = false

[dependencies]
anyhow = "*"
color-eyre = "*"
crossterm = "*"
ratatui = "*"
reqwest = { version = "*", default-features = false, features = ["json", "rustls-tls"] }
serde = { version = "*", features = ["derive"] }
tokio = { version = "*", features = ["rt-multi-thread", "macros", "sync", "time"] }
xmltree = { version = "=0.12.0", features = ["attribute-order"] }

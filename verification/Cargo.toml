[package]
name = "rustydo"
version = "0.1.0"
edition = "2021"
publish = false

[dependencies]
anyhow = "=1.0.104"
chrono = "=0.4.45"
clap = { version = "=4.6.7", features = ["derive"] }
colored = "=2.2.0"
crossterm = "=0.28.1"
directories = "=5.0.1"
ratatui = "=0.29.0"
reqwest = { version = "=0.12.28", features = ["json"] }
rusqlite = "=0.32.1"
serde = { version = "=1.0.229", features = ["derive"] }
tokio = { version = "=1.54.1", features = ["macros", "rt-multi-thread"] }
toml = "=0.8.23"
xlsxwriter = "=0.6.1"

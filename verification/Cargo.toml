[package]
name = "invoice_rs"
version = "0.1.0"
edition = "2021"
publish = false

[dependencies]
rand = "=0.10.3"
chrono = "=0.4.45"
crossterm = "=0.29.0"
ratatui = "=0.30.2"
rusqlite = { version = "=0.40.2", features = ["bundled"] }
serde = { version = "=1.0.229", features = ["derive"] }
serde_json = "=1.0.151"
headless_chrome = "=0.9.0"
tera = "=2.4.0"
anyhow = "=1.0.104"

[package]
name = "termfinder"
version = "0.1.0"
edition = "2021"
publish = false

[dependencies]
ratatui = "=0.26.3"
crossterm = "=0.27.0"
anyhow = "=1.0.104"
serde = { version = "=1.0.229", features = ["derive"] }
toml = "=0.8.23"
image = "=0.25.10"
ratatui-image = "=1.0.5"

[package]
name = "tracker"
version = "0.1.0"
edition = "2021"
publish = false

[dependencies]
ratatui = "0.29"
crossterm = "0.28"
tokio = { version = "1", features = ["full"] }
color-eyre = "0.6"
fundsp = "0.20"
cpal = "0.15"
serde = { version = "1", features = ["derive"] }
strum = { version = "0.26", features = ["derive"] }

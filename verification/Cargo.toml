[package]
name = "easychangedirectory"
version = "0.1.0"
edition = "2021"
publish = false

[dependencies]
anyhow = "1"
crossterm = "0.28"
envy = "0.4"
handlebars = "5"
home = "0.5"
log = "0.4"
ratatui = "0.29"
serde = { version = "1", features = ["derive"] }
serde_json = "1"
simplelog = "0.12"

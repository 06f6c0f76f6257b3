[package]
name = "balatro-tui"
version = "0.1.0"
edition = "2021"
publish = false

[dependencies]
clap = { version = "*", features = ["derive"] }
color-eyre = "*"
crossterm = "*"
git2 = "*"
log = "*"
nucleo-matcher = "*"
opener = "*"
platform-dirs = "*"
rand = "*"
ratatui = "*"
reqwest = "*"
serde = { version = "*", features = ["derive"] }
serde_json = "*"
tempfile = "*"
tokio = { version = "*", features = ["full"] }
tracing = "*"
tui-logger = "*"
zip = "*"

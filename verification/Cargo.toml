[package]
name = "chat_cli"
version = "0.1.0"
edition = "2021"
publish = false

[dependencies]
serde_json = "1"
serde = { version = "1", features = ["derive"] }
clap = { version = "4", features = ["derive"] }
tokio = { version = "1", features = ["macros", "rt", "time", "signal"] }
dialoguer = "0.11"
crossterm = "*"
anstream = "0.6"
color-print = "0.3"
eyre = "0.6"
schemars = "1"
strum = { version = "0.27", features = ["derive"] }
tracing = "0.1"

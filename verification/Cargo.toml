[package]
name = "herdr_pi_reloader"
version = "0.1.0"
edition = "2021"
publish = false

[dependencies]
crossterm = "0.28"
ratatui = "0.29"
serde = { version = "1", features = ["derive"] }
serde_json = "1"
shell-escape = "0.1"
tokio = { version = "1", features = ["macros", "rt-multi-thread", "process", "time"] }

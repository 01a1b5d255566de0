[package]
name = "fusabi_tui"
version = "0.1.0"
edition = "2021"
publish = false

[dependencies]
anyhow = "1"
fusabi = "*"
fusabi-vm = "*"
ratatui = "0.29"
serde = { version = "1", features = ["derive"] }
